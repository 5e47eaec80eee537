use ima_cli::api::{build_headers, check_api_response, check_api_value, check_raw_response, endpoint_url, http_success};
use ima_cli::json::{JsonNumber, JsonValue};
use ima_cli::config::Config;
use ima_cli::error::Error;

fn config() -> Config {
    Config {
        client_id: Some("cid".to_string()),
        api_key: Some("key".to_string()),
        base_url: "https://ima.qq.com".to_string(),
        skill_version: "1.1.7".to_string(),
        force_update_check: false,
        last_check_file: None,
        config_path: None,
    }
}

#[test]
fn endpoint_urls() {
    assert_eq!(endpoint_url("https://ima.qq.com", "openapi/wiki/v1/get_knowledge_base"), "https://ima.qq.com/openapi/wiki/v1/get_knowledge_base");
}

#[test]
fn headers_carry_credentials_and_version() {
    let h = build_headers(&config()).unwrap();
    let pairs: Vec<(&str, &str)> = h.iter().map(|(k, v)| (k.as_str(), v.as_str())).collect();
    assert_eq!(
        pairs,
        vec![
            ("ima-openapi-clientid", "cid"),
            ("ima-openapi-apikey", "key"),
            ("ima-openapi-ctx", "skill_version=1.1.7"),
            ("Content-Type", "application/json"),
        ]
    );
    let mut c = config();
    c.api_key = None;
    match build_headers(&c) {
        Err(Error::MissingCredentials(m)) => assert_eq!(m, "API Key is missing"),
        other => panic!("unexpected {:?}", other),
    }
}

#[test]
fn response_checks() {
    assert!(http_success(200) && http_success(299) && !http_success(300) && !http_success(199));
    assert!(check_api_response(200, "{\"code\":0,\"msg\":\"ok\",\"data\":{}}").is_ok());
    assert!(check_api_response(200, "{\"data\":{}}").is_ok());
    assert!(check_api_response(200, "{\"code\":\"5\"}").is_ok());
    match check_api_response(200, "{\"code\":110030,\"msg\":\"no permission\"}") {
        Err(Error::ApiResponseError(c, m)) => {
            assert_eq!(c, 110030);
            assert_eq!(m, "no permission");
        }
        other => panic!("unexpected {:?}", other),
    }
    match check_api_response(200, "{\"code\":-1}") {
        Err(Error::ApiResponseError(c, m)) => {
            assert_eq!(c, -1);
            assert_eq!(m, "Unknown error");
        }
        other => panic!("unexpected {:?}", other),
    }
    match check_api_response(200, "{\"code\":4294967297}") {
        Err(Error::ApiResponseError(c, _)) => assert_eq!(c, 1),
        other => panic!("unexpected {:?}", other),
    }
    match check_api_response(200, "{oops") {
        Err(Error::JsonError(m)) => assert_eq!(m, serde_json::from_str::<serde_json::Value>("{oops").unwrap_err().to_string()),
        other => panic!("unexpected {:?}", other),
    }
    match check_api_response(500, "boom") {
        Err(Error::ApiRequestFailed(m)) => assert_eq!(m, "HTTP 500 Internal Server Error: boom"),
        other => panic!("unexpected {:?}", other),
    }
}

#[test]
fn raw_response_checks() {
    assert_eq!(check_raw_response(200, "text".to_string()).unwrap(), "text");
    match check_raw_response(404, "missing".to_string()) {
        Err(Error::ApiRequestFailed(m)) => assert_eq!(m, "HTTP 404 Not Found: missing"),
        other => panic!("unexpected {:?}", other),
    }
}

#[test]
fn api_value_reports_a_nonzero_code() {
    let ok = JsonValue::Object(vec![("code".to_string(), JsonValue::Number(JsonNumber::PosInt(0)))]);
    assert!(check_api_value(&ok).is_ok());
    assert!(check_api_value(&JsonValue::Null).is_ok());
    let err = JsonValue::Object(vec![
        ("code".to_string(), JsonValue::Number(JsonNumber::NegInt(-7))),
        ("msg".to_string(), JsonValue::Str("bad".to_string())),
    ]);
    match check_api_value(&err) {
        Err(Error::ApiResponseError(c, m)) => assert_eq!((c, m.as_str()), (-7, "bad")),
        other => panic!("unexpected {:?}", other),
    }
    let no_msg = JsonValue::Object(vec![("code".to_string(), JsonValue::Number(JsonNumber::PosInt(3)))]);
    match check_api_value(&no_msg) {
        Err(Error::ApiResponseError(c, m)) => assert_eq!((c, m.as_str()), (3, "Unknown error")),
        other => panic!("unexpected {:?}", other),
    }
    let float = JsonValue::Object(vec![("code".to_string(), JsonValue::Number(JsonNumber::Float))]);
    assert!(check_api_value(&float).is_ok());
}
