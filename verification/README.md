# ima_cli

A command-line client for the IMA OpenAPI (knowledge bases and notes),
written in Verus.

- `src/` is the verified library: error codes and messages, configuration
  and credential rules, the JSON checks on API responses, the COS request
  signature and URL encoding, the file type and size rules of uploads, and
  the plans of the upload, legacy API and update-check commands.
- `app/` is the program around it: argument parsing, HTTP requests, files,
  environment, and the serializable copies of the library's data types.
- `tests/` runs the library on concrete values.

Calls into `serde_json`, `sha1`, `hmac`, `hex`, `mime_guess`, `reqwest`'s
status codes and `str::to_lowercase` are made through a few trusted
functions whose contracts are stated next to them.
