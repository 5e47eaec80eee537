//! Error kinds, their numeric codes and their user-facing messages.

use vstd::prelude::*;

verus! {

/// Programmatic error code.
pub const ERR_PROGRAMMATIC: i32 = -100;

/// Update available error code.
pub const ERR_UPDATE_AVAILABLE: i32 = -200;

/// The error kinds of the client. Variants that wrap an error of a transport,
/// file or JSON layer hold that error's display text.
#[derive(Debug)]
pub enum Error {
    MissingCredentials(String),
    InvalidConfig(String),
    ApiRequestFailed(String),
    ApiResponseError(i32, String),
    NetworkError(String),
    IoError(String),
    JsonError(String),
    FileValidationFailed(String),
    CosUploadFailed(String),
    UpdateAvailable(String),
    InvalidArgument(String),
    NotFound(String),
    PermissionDenied(String),
    RateLimited(String),
    SecurityViolation(String),
    InternalError(String),
}

/// Error structure printed as JSON by the command-line front end.
#[derive(Debug)]
pub struct CliError {
    pub code: i32,
    pub msg: String,
}

impl Error {
    /// The numeric code of each error kind (see the error code table).
    pub open spec fn spec_code(&self) -> i32 {
        match self {
            Error::MissingCredentials(_) => ERR_PROGRAMMATIC,
            Error::InvalidConfig(_) => ERR_PROGRAMMATIC,
            Error::InvalidArgument(_) => ERR_PROGRAMMATIC,
            Error::FileValidationFailed(_) => ERR_PROGRAMMATIC,
            Error::NotFound(_) => ERR_PROGRAMMATIC,
            Error::PermissionDenied(_) => 110030,
            Error::RateLimited(_) => 110021,
            Error::SecurityViolation(_) => 110020,
            Error::NetworkError(_) => 110010,
            Error::ApiRequestFailed(_) => 110011,
            Error::ApiResponseError(code, _) => *code,
            Error::CosUploadFailed(_) => ERR_PROGRAMMATIC,
            Error::IoError(_) => ERR_PROGRAMMATIC,
            Error::JsonError(_) => ERR_PROGRAMMATIC,
            Error::UpdateAvailable(_) => ERR_UPDATE_AVAILABLE,
            Error::InternalError(_) => ERR_PROGRAMMATIC,
        }
    }

    /// The human-readable message of each error kind: a fixed prefix and
    /// the detail, or the detail alone for API responses and updates.
    pub open spec fn spec_message(&self) -> Seq<char> {
        match self {
            Error::MissingCredentials(msg) => "未找到 IMA 凭证。"@ + msg@,
            Error::InvalidConfig(msg) => "配置错误："@ + msg@,
            Error::InvalidArgument(msg) => "参数错误："@ + msg@,
            Error::FileValidationFailed(msg) => "文件验证失败："@ + msg@,
            Error::NotFound(msg) => "未找到："@ + msg@,
            Error::PermissionDenied(msg) => "无权限："@ + msg@,
            Error::RateLimited(msg) => "请求频控："@ + msg@,
            Error::SecurityViolation(msg) => "安全打击："@ + msg@,
            Error::NetworkError(e) => "网络错误："@ + e@,
            Error::ApiRequestFailed(msg) => "API 请求失败："@ + msg@,
            Error::ApiResponseError(_, msg) => msg@,
            Error::CosUploadFailed(msg) => "COS 上传失败："@ + msg@,
            Error::IoError(e) => "IO 错误："@ + e@,
            Error::JsonError(e) => "JSON 错误："@ + e@,
            Error::UpdateAvailable(msg) => msg@,
            Error::InternalError(msg) => "内部错误："@ + msg@,
        }
    }

    /// Get the error code for this error.
    pub fn code(&self) -> (c: i32)
        ensures
            c == self.spec_code(),
    {
        match self {
            Error::MissingCredentials(_) => ERR_PROGRAMMATIC,
            Error::InvalidConfig(_) => ERR_PROGRAMMATIC,
            Error::InvalidArgument(_) => ERR_PROGRAMMATIC,
            Error::FileValidationFailed(_) => ERR_PROGRAMMATIC,
            Error::NotFound(_) => ERR_PROGRAMMATIC,
            Error::PermissionDenied(_) => 110030,
            Error::RateLimited(_) => 110021,
            Error::SecurityViolation(_) => 110020,
            Error::NetworkError(_) => 110010,
            Error::ApiRequestFailed(_) => 110011,
            Error::ApiResponseError(code, _) => *code,
            Error::CosUploadFailed(_) => ERR_PROGRAMMATIC,
            Error::IoError(_) => ERR_PROGRAMMATIC,
            Error::JsonError(_) => ERR_PROGRAMMATIC,
            Error::UpdateAvailable(_) => ERR_UPDATE_AVAILABLE,
            Error::InternalError(_) => ERR_PROGRAMMATIC,
        }
    }

    /// The process exit code for this error: 2 when an update is available,
    /// 1 for every other error.
    pub fn exit_code(&self) -> (c: i32)
        ensures
            c == if self is UpdateAvailable {
                2i32
            } else {
                1i32
            },
    {
        match self {
            Error::UpdateAvailable(_) => 2,
            _ => 1,
        }
    }

    /// Get a human-readable message for this error.
    pub fn message(&self) -> (m: String)
        ensures
            m@ == self.spec_message(),
    {
        match self {
            Error::MissingCredentials(msg) => prefixed("未找到 IMA 凭证。", msg),
            Error::InvalidConfig(msg) => prefixed("配置错误：", msg),
            Error::InvalidArgument(msg) => prefixed("参数错误：", msg),
            Error::FileValidationFailed(msg) => prefixed("文件验证失败：", msg),
            Error::NotFound(msg) => prefixed("未找到：", msg),
            Error::PermissionDenied(msg) => prefixed("无权限：", msg),
            Error::RateLimited(msg) => prefixed("请求频控：", msg),
            Error::SecurityViolation(msg) => prefixed("安全打击：", msg),
            Error::NetworkError(e) => prefixed("网络错误：", e),
            Error::ApiRequestFailed(msg) => prefixed("API 请求失败：", msg),
            Error::ApiResponseError(_, msg) => msg.clone(),
            Error::CosUploadFailed(msg) => prefixed("COS 上传失败：", msg),
            Error::IoError(e) => prefixed("IO 错误：", e),
            Error::JsonError(e) => prefixed("JSON 错误：", e),
            Error::UpdateAvailable(msg) => msg.clone(),
            Error::InternalError(msg) => prefixed("内部错误：", msg),
        }
    }
}

/// Every error code is one of the documented codes, except the code that an
/// API response reports, which is passed on as it is.
pub proof fn lemma_error_codes_documented(e: Error)
    ensures
        e is ApiResponseError || e.spec_code() == ERR_PROGRAMMATIC || e.spec_code()
            == ERR_UPDATE_AVAILABLE || e.spec_code() == 110010 || e.spec_code() == 110011
            || e.spec_code() == 110020 || e.spec_code() == 110021 || e.spec_code() == 110030,
        e is ApiResponseError ==> e.spec_code() == e->ApiResponseError_0,
{
}

/// The documented error codes, kind by kind: -100 for programmatic errors
/// (credentials, configuration, arguments, file validation, not found, COS
/// upload, I/O, JSON, internal), -200 for an available update, 110010 for the
/// network, 110011 for a failed request, 110020 for a security violation,
/// 110021 for rate limiting, 110030 for a denied permission; a code that an
/// API response reports is passed on as it is.
pub proof fn lemma_error_code_table(e: Error)
    ensures
        (e is MissingCredentials || e is InvalidConfig || e is InvalidArgument || e is FileValidationFailed
            || e is NotFound || e is CosUploadFailed || e is IoError || e is JsonError || e is InternalError)
            ==> e.spec_code() == -100,
        e is UpdateAvailable ==> e.spec_code() == -200,
        e is NetworkError ==> e.spec_code() == 110010,
        e is ApiRequestFailed ==> e.spec_code() == 110011,
        e is SecurityViolation ==> e.spec_code() == 110020,
        e is RateLimited ==> e.spec_code() == 110021,
        e is PermissionDenied ==> e.spec_code() == 110030,
        e matches Error::ApiResponseError(code, _) ==> e.spec_code() == code,
{
}

/// Every message ends with the error's detail: an API-reported error and an
/// available update show their detail alone, every other kind puts its
/// fixed label in front of it (for an invalid argument "参数错误：", for a
/// missing credential "未找到 IMA 凭证。", for a network error "网络错误：").
pub proof fn lemma_error_message_ends_with_detail(e: Error)
    ensures
        e matches Error::ApiResponseError(_, m) ==> e.spec_message() == m@,
        e matches Error::UpdateAvailable(m) ==> e.spec_message() == m@,
        e matches Error::InvalidArgument(m) ==> e.spec_message() == "参数错误："@ + m@,
        e matches Error::MissingCredentials(m) ==> e.spec_message() == "未找到 IMA 凭证。"@ + m@,
        e matches Error::NetworkError(m) ==> e.spec_message() == "网络错误："@ + m@,
        e matches Error::FileValidationFailed(m) ==> e.spec_message() == "文件验证失败："@ + m@,
        e matches Error::InvalidConfig(m) ==> e.spec_message() == "配置错误："@ + m@,
{
}

fn prefixed(prefix: &str, detail: &String) -> (s: String)
    ensures
        s@ == prefix@ + detail@,
{
    let mut s = String::from_str(prefix);
    s.append(detail.as_str());
    s
}

impl CliError {
    /// The JSON error record for an error: its code and its message.
    pub fn from_error(err: &Error) -> (c: CliError)
        ensures
            c.code == err.spec_code(),
            c.msg@ == err.spec_message(),
    {
        CliError { code: err.code(), msg: err.message() }
    }

    /// The JSON error record for a JSON (de)serialization failure whose
    /// display text is `detail`.
    pub fn from_json_error(detail: &str) -> (c: CliError)
        ensures
            c.code == ERR_PROGRAMMATIC,
            c.msg@ == "JSON error: "@ + detail@,
    {
        let mut msg = String::from_str("JSON error: ");
        msg.append(detail);
        CliError { code: ERR_PROGRAMMATIC, msg }
    }
}

pub fn missing_credentials(detail: String) -> (e: Error)
    ensures
        e == Error::MissingCredentials(detail),
{
    Error::MissingCredentials(detail)
}

pub fn invalid_config(detail: String) -> (e: Error)
    ensures
        e == Error::InvalidConfig(detail),
{
    Error::InvalidConfig(detail)
}

pub fn api_request_failed(detail: String) -> (e: Error)
    ensures
        e == Error::ApiRequestFailed(detail),
{
    Error::ApiRequestFailed(detail)
}

pub fn api_error(code: i32, msg: String) -> (e: Error)
    ensures
        e == Error::ApiResponseError(code, msg),
{
    Error::ApiResponseError(code, msg)
}

pub fn file_validation_failed(detail: String) -> (e: Error)
    ensures
        e == Error::FileValidationFailed(detail),
{
    Error::FileValidationFailed(detail)
}

pub fn cos_upload_failed(detail: String) -> (e: Error)
    ensures
        e == Error::CosUploadFailed(detail),
{
    Error::CosUploadFailed(detail)
}

pub fn update_available(msg: String) -> (e: Error)
    ensures
        e == Error::UpdateAvailable(msg),
{
    Error::UpdateAvailable(msg)
}

pub fn invalid_argument(detail: String) -> (e: Error)
    ensures
        e == Error::InvalidArgument(detail),
{
    Error::InvalidArgument(detail)
}

pub fn not_found(detail: String) -> (e: Error)
    ensures
        e == Error::NotFound(detail),
{
    Error::NotFound(detail)
}

pub fn permission_denied(detail: String) -> (e: Error)
    ensures
        e == Error::PermissionDenied(detail),
{
    Error::PermissionDenied(detail)
}

pub fn rate_limited(detail: String) -> (e: Error)
    ensures
        e == Error::RateLimited(detail),
{
    Error::RateLimited(detail)
}

pub fn security_violation(detail: String) -> (e: Error)
    ensures
        e == Error::SecurityViolation(detail),
{
    Error::SecurityViolation(detail)
}

/// A network-layer error, given by its display text.
pub fn network_error(e: String) -> (r: Error)
    ensures
        r == Error::NetworkError(e),
{
    Error::NetworkError(e)
}

/// A file-system error, given by its display text.
pub fn io_error(e: String) -> (r: Error)
    ensures
        r == Error::IoError(e),
{
    Error::IoError(e)
}

/// A JSON error, given by its display text.
pub fn json_error(e: String) -> (r: Error)
    ensures
        r == Error::JsonError(e),
{
    Error::JsonError(e)
}

} // verus!
