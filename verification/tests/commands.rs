use ima_cli::commands::kb::{
    add_knowledge_params, build_check_repeated_params, check_file_size_limit, choose_content_type,
    determine_media_type, format_size, media_type_from, parse_id_list, plan_upload, size_limit,
};
use ima_cli::commands::notes::{append_doc_params, import_doc_params, validate_utf8};
use ima_cli::commands::{
    evaluate_update_response, evaluate_update_value, legacy_call_after_update_check, legacy_plan_with_options,
    plan_legacy_api, update_check_after_request, update_check_due, update_check_file,
};
use ima_cli::json::JsonValue;
use ima_cli::config::Config;
use ima_cli::error::Error;

const MB: u64 = 1024 * 1024;

fn float_format_size(bytes: u64) -> String {
    if bytes >= MB {
        format!("{:.1} MB", bytes as f64 / MB as f64)
    } else if bytes >= 1024 {
        format!("{:.1} KB", bytes as f64 / 1024 as f64)
    } else {
        format!("{} B", bytes)
    }
}

#[test]
fn format_size_examples() {
    assert_eq!(format_size(0), "0 B");
    assert_eq!(format_size(1023), "1023 B");
    assert_eq!(format_size(1024), "1.0 KB");
    assert_eq!(format_size(1536), "1.5 KB");
    assert_eq!(format_size(10 * MB), "10.0 MB");
    assert_eq!(format_size(1310720), "1.2 MB");
    assert_eq!(format_size(1572864), "1.5 MB");
}

#[test]
fn format_size_agrees_with_float_formatting() {
    let mut values: Vec<u64> = vec![u64::MAX, u64::MAX - 1, 1 << 53, (1 << 53) + 1, (1 << 54) + 3, 9007199254740993, 18446744073709550591, 18446744073709549568];
    for k in 0..4000u64 {
        values.push(k);
        values.push(1024 + k * 13);
        values.push(MB + k * 26214);
        values.push(k * 262144);
        values.push(k.wrapping_mul(0x9E37_79B9_7F4A_7C15));
    }
    for v in values {
        assert_eq!(format_size(v), float_format_size(v), "value {}", v);
    }
}

#[test]
fn media_types_by_extension_then_content_type() {
    assert_eq!(determine_media_type("PDF", "").unwrap(), 1);
    assert_eq!(determine_media_type("docx", "image/png").unwrap(), 3);
    assert_eq!(determine_media_type("csv", "").unwrap(), 5);
    assert_eq!(determine_media_type("gif", "").unwrap(), 9);
    assert_eq!(determine_media_type("M4A", "").unwrap(), 15);
    assert_eq!(determine_media_type("", "application/pdf").unwrap(), 1);
    assert_eq!(determine_media_type("bin", "application/vnd.openxmlformats-officedocument.wordprocessingml.document").unwrap(), 3);
    assert_eq!(determine_media_type("bin", "application/vnd.ms-powerpoint").unwrap(), 4);
    assert_eq!(determine_media_type("bin", "text/csv").unwrap(), 5);
    assert_eq!(determine_media_type("bin", "text/markdown").unwrap(), 7);
    assert_eq!(determine_media_type("bin", "image/jpeg").unwrap(), 9);
    assert_eq!(determine_media_type("bin", "text/plain").unwrap(), 13);
    assert_eq!(determine_media_type("bin", "application/zip").unwrap(), 14);
    assert_eq!(determine_media_type("bin", "audio/mpeg").unwrap(), 15);
    match determine_media_type("Bin", "application/octet-stream") {
        Err(Error::FileValidationFailed(m)) => assert_eq!(m, "Unsupported file type: extension=Bin, content_type=application/octet-stream"),
        other => panic!("unexpected {:?}", other),
    }
    assert_eq!(media_type_from("xmind", "x"), 14);
    assert_eq!(media_type_from("unknown", "x"), 0);
}

#[test]
fn size_limits_by_media_type() {
    assert_eq!(size_limit(5), 10 * MB);
    assert_eq!(size_limit(9), 30 * MB);
    assert_eq!(size_limit(1), 200 * MB);
    assert!(check_file_size_limit(13, 10 * MB).is_ok());
    match check_file_size_limit(13, 10 * MB + 1) {
        Err(Error::FileValidationFailed(m)) => assert_eq!(m, "File size 10.0 MB exceeds the 10.0 MB limit for this file type"),
        other => panic!("unexpected {:?}", other),
    }
    match check_file_size_limit(9, 40 * MB) {
        Err(Error::FileValidationFailed(m)) => assert_eq!(m, "File size 40.0 MB exceeds the 30.0 MB limit for this file type"),
        other => panic!("unexpected {:?}", other),
    }
    assert!(check_file_size_limit(1, 200 * MB).is_ok());
}

#[test]
fn content_type_choice() {
    assert_eq!(choose_content_type(Some("text/x"), "a.pdf"), "text/x");
    assert_eq!(choose_content_type(None, "a.pdf"), "application/pdf");
    assert_eq!(choose_content_type(None, "a.nothing-known"), "application/octet-stream");
}

#[test]
fn upload_plans() {
    let plan = plan_upload("/tmp/Report.PDF", Some("Report.PDF".into()), Some("PDF"), None, "kb1", 2048).unwrap();
    assert_eq!(plan.media_type, 1);
    assert_eq!(plan.create_params.file_name, "Report.PDF");
    assert_eq!(plan.create_params.file_ext, "pdf");
    assert_eq!(plan.create_params.content_type, "application/pdf");
    assert_eq!(plan.create_params.knowledge_base_id, "kb1");
    assert_eq!(plan.create_params.file_size, 2048);
    match plan_upload("/tmp/x", None, None, None, "kb", 1) {
        Err(Error::InvalidArgument(m)) => assert_eq!(m, "Invalid file path"),
        other => panic!("unexpected {:?}", other),
    }
    match plan_upload("/tmp/notes.txt", Some("notes.txt".into()), Some("txt"), None, "kb", 11 * MB) {
        Err(Error::FileValidationFailed(m)) => assert_eq!(m, "File size 11.0 MB exceeds the 10.0 MB limit for this file type"),
        other => panic!("unexpected {:?}", other),
    }
    let plan = plan_upload("/tmp/data", Some("data".into()), None, Some("image/png"), "kb", 5).unwrap();
    assert_eq!(plan.media_type, 9);
    assert_eq!(plan.create_params.file_ext, "");
}

#[test]
fn knowledge_entry_for_upload() {
    let p = add_knowledge_params(1, "m1".into(), None, "a.pdf".into(), "kb".into(), Some("f".into()), "key".into(), 10, 99);
    assert_eq!(p.title, "a.pdf");
    assert_eq!(p.media_id.as_deref(), Some("m1"));
    let f = p.file_info.unwrap();
    assert_eq!((f.cos_key.as_str(), f.file_size, f.last_modify_time, f.file_name.as_str()), ("key", 10, 99, "a.pdf"));
    let p = add_knowledge_params(1, "m1".into(), Some("T".into()), "a.pdf".into(), "kb".into(), None, "key".into(), 10, 99);
    assert_eq!(p.title, "T");
    assert!(p.folder_id.is_none() && p.note_info.is_none());
}

#[test]
fn id_lists() {
    assert_eq!(parse_id_list(" a, b ,c"), vec!["a", "b", "c"]);
    assert_eq!(parse_id_list(""), vec![""]);
    assert_eq!(parse_id_list("x,,y"), vec!["x", "", "y"]);
}

#[test]
fn repeated_name_arguments() {
    let files = vec!["report.pdf:1".to_string(), "b.docx:+3".to_string()];
    let p = build_check_repeated_params("kb".into(), None, &files).unwrap();
    assert_eq!(p.params.len(), 2);
    assert_eq!((p.params[0].name.as_str(), p.params[0].media_type), ("report.pdf", 1));
    assert_eq!((p.params[1].name.as_str(), p.params[1].media_type), ("b.docx", 3));
    let bad = vec!["ok:1".to_string(), "bad".to_string(), "x:y".to_string()];
    match build_check_repeated_params("kb".into(), None, &bad) {
        Err(Error::InvalidArgument(m)) => assert_eq!(m, "Invalid file spec 'bad'. Expected format: name:media_type"),
        other => panic!("unexpected {:?}", other),
    }
    match build_check_repeated_params("kb".into(), None, &vec!["x:y".to_string()]) {
        Err(Error::InvalidArgument(m)) => assert_eq!(m, "Invalid media type 'y'"),
        other => panic!("unexpected {:?}", other),
    }
    assert!(build_check_repeated_params("kb".into(), None, &vec!["a:b:1".to_string()]).is_err());
}

#[test]
fn repeated_name_spec_without_media_type_is_refused() {
    let files = vec!["report.pdf:1".to_string(), "notes".to_string()];
    let e = build_check_repeated_params("kb1".into(), None, &files).unwrap_err();
    assert!(matches!(e, Error::InvalidArgument(_)));
    assert_eq!(e.code(), -100);
}

#[test]
fn repeated_name_spec_with_non_numeric_media_type_is_refused() {
    let files = vec!["report.pdf:pdf".to_string()];
    let e = build_check_repeated_params("kb1".into(), None, &files).unwrap_err();
    assert!(matches!(e, Error::InvalidArgument(_)));
    assert_eq!(e.code(), -100);
    assert_eq!(e.message(), "参数错误：Invalid media type 'pdf'");
}

#[test]
fn notes_requests() {
    assert_eq!(validate_utf8("héllo").unwrap(), "héllo");
    let p = import_doc_params("nb".into(), "标题", "# x", 1).unwrap();
    assert_eq!((p.notebook_id.as_str(), p.title.as_str(), p.content.as_str(), p.content_format), ("nb", "标题", "# x", 1));
    let p = append_doc_params("d".into(), "more", 4294967295).unwrap();
    assert_eq!(p.content_format, -1);
}

fn config() -> Config {
    Config {
        client_id: Some("cid".into()),
        api_key: None,
        base_url: "https://ima.qq.com".into(),
        skill_version: "1.1.7".into(),
        force_update_check: false,
        last_check_file: Some("/tmp/last".into()),
        config_path: None,
    }
}

#[test]
fn legacy_api_options_override_configuration() {
    let plan = plan_legacy_api("openapi/wiki/v1/x", "{}", "{\"apiKey\":\"k\",\"baseUrl\":\"http://local\",\"forceCheck\":true}", &config()).unwrap();
    assert_eq!(plan.config.client_id.as_deref(), Some("cid"));
    assert_eq!(plan.config.api_key.as_deref(), Some("k"));
    assert_eq!(plan.config.base_url, "http://local");
    assert!(plan.config.force_update_check);
    assert!(plan.check_update_first);
    let plan = plan_legacy_api("openapi/check_skill_update", "{}", "{\"forceCheck\":true,\"clientId\":5}", &config()).unwrap();
    assert!(!plan.check_update_first);
    assert_eq!(plan.config.client_id.as_deref(), Some("cid"));
    let plan = plan_legacy_api("p", "[1]", "[]", &config()).unwrap();
    assert!(!plan.check_update_first);
    assert_eq!(plan.config.base_url, "https://ima.qq.com");
    match plan_legacy_api("p", "{", "{}", &config()) {
        Err(Error::InvalidArgument(m)) => assert!(m.starts_with("请求 body 不是合法的 JSON: ")),
        other => panic!("unexpected {:?}", other),
    }
    match plan_legacy_api("p", "{}", "nope", &config()) {
        Err(Error::InvalidArgument(m)) => assert!(m.starts_with("options 参数不是合法的 JSON: ")),
        other => panic!("unexpected {:?}", other),
    }
}

#[test]
fn update_check_rules() {
    assert_eq!(update_check_file(&config()).unwrap(), std::path::PathBuf::from("/tmp/last"));
    let mut c = config();
    c.last_check_file = None;
    match update_check_file(&c) {
        Err(Error::InvalidConfig(m)) => assert_eq!(m, "Last check file path not set"),
        other => panic!("unexpected {:?}", other),
    }
    assert!(!update_check_due(Some("2024-05-01\n"), "2024-05-01", false));
    assert!(update_check_due(Some("2024-05-01\n"), "2024-05-01", true));
    assert!(update_check_due(None, "2024-05-01", false));
    assert!(update_check_due(Some("2024-04-30"), "2024-05-01", false));
}

#[test]
fn update_responses() {
    assert_eq!(evaluate_update_response("{\"data\":{\"latest_version\":\"1.1.7\"}}", "1.1.7").unwrap(), "");
    assert_eq!(evaluate_update_response("garbage", "1.1.7").unwrap(), "");
    assert_eq!(evaluate_update_response("{\"data\":{}}", "1.1.7").unwrap(), "");
    match evaluate_update_response("{\"data\":{\"latest_version\":\"1.2.0\",\"instruction\":\"run update\"}}", "1.1.7") {
        Err(Error::UpdateAvailable(m)) => assert_eq!(m, "发现新版本 skill：1.2.0（当前版本：1.1.7）。run update"),
        other => panic!("unexpected {:?}", other),
    }
    match evaluate_update_response("{\"data\":{\"latest_version\":\"1.2.0\"}}", "1.1.7") {
        Err(e) => {
            assert_eq!(e.code(), -200);
            assert_eq!(e.message(), "发现新版本 skill：1.2.0（当前版本：1.1.7）。请更新。");
        }
        other => panic!("unexpected {:?}", other),
    }
}

fn obj(members: Vec<(&str, JsonValue)>) -> JsonValue {
    JsonValue::Object(members.into_iter().map(|(k, v)| (k.to_string(), v)).collect())
}

fn text(s: &str) -> JsonValue {
    JsonValue::Str(s.to_string())
}

#[test]
fn update_value_from_parsed_response() {
    let newer = obj(vec![("data", obj(vec![("latest_version", text("2.0.0")), ("instruction", text("go"))]))]);
    match evaluate_update_value(&newer, "1.1.7") {
        Err(Error::UpdateAvailable(m)) => assert_eq!(m, "发现新版本 skill：2.0.0（当前版本：1.1.7）。go"),
        other => panic!("unexpected {:?}", other),
    }
    let same = obj(vec![("data", obj(vec![("latest_version", text("1.1.7"))]))]);
    assert_eq!(evaluate_update_value(&same, "1.1.7").unwrap(), "");
    assert_eq!(evaluate_update_value(&JsonValue::Null, "1.1.7").unwrap(), "");
    let not_text = obj(vec![("data", obj(vec![("latest_version", JsonValue::Bool(true))]))]);
    assert_eq!(evaluate_update_value(&not_text, "1.1.7").unwrap(), "");
}

#[test]
fn failed_update_request_skips_the_check_without_recording() {
    let o = update_check_after_request(Err(Error::NetworkError("timeout".to_string())), "1.1.7");
    assert!(!o.record_date);
    assert_eq!(o.result.unwrap(), "");
    let o = update_check_after_request(Err(Error::ApiRequestFailed("HTTP 500".to_string())), "1.1.7");
    assert!(!o.record_date);
    assert_eq!(o.result.unwrap(), "");
}

#[test]
fn answered_update_request_records_the_date() {
    let o = update_check_after_request(Ok("{\"data\":{\"latest_version\":\"1.1.7\"}}".to_string()), "1.1.7");
    assert!(o.record_date);
    assert_eq!(o.result.unwrap(), "");
    let o = update_check_after_request(Ok("{\"data\":{\"latest_version\":\"1.2.0\"}}".to_string()), "1.1.7");
    assert!(o.record_date);
    match o.result {
        Err(e) => assert_eq!(e.code(), -200),
        other => panic!("unexpected {:?}", other),
    }
    let o = update_check_after_request(Ok("not json".to_string()), "1.1.7");
    assert!(o.record_date);
    assert_eq!(o.result.unwrap(), "");
}

#[test]
fn legacy_call_stops_when_an_update_is_available() {
    match legacy_call_after_update_check(Err(Error::UpdateAvailable("new".to_string()))) {
        Err(Error::UpdateAvailable(m)) => assert_eq!(m, "new"),
        other => panic!("unexpected {:?}", other),
    }
    assert!(legacy_call_after_update_check(Ok(String::new())).is_ok());
    assert!(legacy_call_after_update_check(Err(Error::InvalidConfig("x".to_string()))).is_ok());
    assert!(legacy_call_after_update_check(Err(Error::NetworkError("x".to_string()))).is_ok());
}

#[test]
fn legacy_plan_from_parsed_options() {
    let opts = obj(vec![("clientId", text("c2")), ("apiKey", JsonValue::Bool(false)), ("forceCheck", JsonValue::Bool(true))]);
    let plan = legacy_plan_with_options("openapi/x", &opts, &config());
    assert_eq!(plan.config.client_id.as_deref(), Some("c2"));
    assert_eq!(plan.config.api_key, config().api_key);
    assert_eq!(plan.config.base_url, config().base_url);
    assert!(plan.check_update_first);
    let plan = legacy_plan_with_options("openapi/x", &JsonValue::Null, &config());
    assert_eq!(plan.check_update_first, config().force_update_check);
}

#[test]
fn extension_matching_ignores_case() {
    assert_eq!(determine_media_type("PDF", "").unwrap(), 1);
    for ext in ["PDF", "Docx", "pPtX", "MD", "JpEg", "TXT", "XMind", "M4A", "Zzz"] {
        assert_eq!(
            determine_media_type(ext, "text/plain").ok(),
            determine_media_type(&ext.to_lowercase(), "text/plain").ok()
        );
    }
}
