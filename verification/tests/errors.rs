use ima_cli::error::{
    api_error, api_request_failed, cos_upload_failed, file_validation_failed, invalid_argument, invalid_config,
    io_error, json_error, missing_credentials, network_error, not_found, permission_denied, rate_limited,
    security_violation, update_available, CliError, Error, ERR_PROGRAMMATIC, ERR_UPDATE_AVAILABLE,
};

#[test]
fn error_codes_follow_the_table() {
    assert_eq!(missing_credentials("x".into()).code(), ERR_PROGRAMMATIC);
    assert_eq!(invalid_config("x".into()).code(), -100);
    assert_eq!(invalid_argument("x".into()).code(), -100);
    assert_eq!(file_validation_failed("x".into()).code(), -100);
    assert_eq!(not_found("x".into()).code(), -100);
    assert_eq!(permission_denied("x".into()).code(), 110030);
    assert_eq!(rate_limited("x".into()).code(), 110021);
    assert_eq!(security_violation("x".into()).code(), 110020);
    assert_eq!(network_error("x".into()).code(), 110010);
    assert_eq!(api_request_failed("x".into()).code(), 110011);
    assert_eq!(api_error(12345, "x".into()).code(), 12345);
    assert_eq!(cos_upload_failed("x".into()).code(), -100);
    assert_eq!(io_error("x".into()).code(), -100);
    assert_eq!(json_error("x".into()).code(), -100);
    assert_eq!(update_available("x".into()).code(), ERR_UPDATE_AVAILABLE);
    assert_eq!(Error::InternalError("x".into()).code(), -100);
}

#[test]
fn error_messages_carry_their_prefix() {
    assert_eq!(missing_credentials("请设置".into()).message(), "未找到 IMA 凭证。请设置");
    assert_eq!(invalid_config("bad".into()).message(), "配置错误：bad");
    assert_eq!(invalid_argument("bad".into()).message(), "参数错误：bad");
    assert_eq!(file_validation_failed("big".into()).message(), "文件验证失败：big");
    assert_eq!(not_found("id".into()).message(), "未找到：id");
    assert_eq!(permission_denied("p".into()).message(), "无权限：p");
    assert_eq!(rate_limited("r".into()).message(), "请求频控：r");
    assert_eq!(security_violation("s".into()).message(), "安全打击：s");
    assert_eq!(network_error("timeout".into()).message(), "网络错误：timeout");
    assert_eq!(api_request_failed("HTTP 500".into()).message(), "API 请求失败：HTTP 500");
    assert_eq!(api_error(7, "raw".into()).message(), "raw");
    assert_eq!(cos_upload_failed("c".into()).message(), "COS 上传失败：c");
    assert_eq!(io_error("e".into()).message(), "IO 错误：e");
    assert_eq!(json_error("j".into()).message(), "JSON 错误：j");
    assert_eq!(update_available("new".into()).message(), "new");
    assert_eq!(Error::InternalError("i".into()).message(), "内部错误：i");
}

#[test]
fn cli_error_from_error_keeps_code_and_message() {
    let e = api_error(110001, "invalid".into());
    let c = CliError::from_error(&e);
    assert_eq!(c.code, 110001);
    assert_eq!(c.msg, "invalid");
    let c = CliError::from_error(&rate_limited("slow".into()));
    assert_eq!(c.code, 110021);
    assert_eq!(c.msg, "请求频控：slow");
}

#[test]
fn cli_error_for_json_failures() {
    let c = CliError::from_json_error("EOF while parsing");
    assert_eq!(c.code, -100);
    assert_eq!(c.msg, "JSON error: EOF while parsing");
}

#[test]
fn exit_codes() {
    assert_eq!(update_available("v".into()).exit_code(), 2);
    assert_eq!(invalid_argument("a".into()).exit_code(), 1);
    assert_eq!(api_error(5, "x".into()).exit_code(), 1);
}
