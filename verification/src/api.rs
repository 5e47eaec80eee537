//! The IMA OpenAPI data model, and the rules of the HTTP exchange with it:
//! endpoint URLs, authentication headers and the checks on each response.
//! Sending requests is left to the caller.

use vstd::prelude::*;
use std::collections::HashMap;

use crate::config::Config;
use crate::error::Error;
use crate::text::decimal;
use crate::json::{JsonValue, parse_json, get_str_member, parsed_json, str_member};

verus! {

// ==================== HTTP exchange ====================

/// The reason phrase that `reqwest::StatusCode` displays after the code: the
/// canonical reason, or `<unknown status code>` for a code that has none.
pub uninterp spec fn status_reason(code: u16) -> Seq<char>;

/// The status line text of an HTTP status code, as `reqwest::StatusCode`
/// displays it: the code in decimal, a space and the reason phrase.
pub open spec fn status_line(code: u16) -> Seq<char> {
    decimal(code as nat) + seq![' '] + status_reason(code)
}

/// `reqwest::StatusCode::from_u16` then its `Display`. Claimed: the text is
/// the code in decimal, a space, and a reason phrase that depends on the code
/// alone (`write!(f, "{} {}", ..)` in the crate's source); which phrase each
/// code has is not stated. `from_u16` accepts exactly the codes 100 to 999.
#[verifier::external_body]
pub(crate) fn status_text(code: u16) -> (s: String)
    requires
        100 <= code <= 999,
    ensures
        s@ == decimal(code as nat) + seq![' '] + status_reason(code),
{
    reqwest::StatusCode::from_u16(code).unwrap().to_string()
}

/// A status code in the success class 2xx (`StatusCode::is_success`).
pub open spec fn is_success(status: u16) -> bool {
    200 <= status < 300
}

/// Whether a status code is in the success class 2xx.
pub fn http_success(status: u16) -> (b: bool)
    ensures
        b == is_success(status),
{
    200 <= status && status < 300
}

/// The URL of an API path under a base URL.
pub fn endpoint_url(base_url: &str, path: &str) -> (url: String)
    ensures
        url@ == base_url@ + "/"@ + path@,
{
    let mut url = String::from_str(base_url);
    url.append("/");
    url.append(path);
    url
}

/// The authentication headers of every request, in order: client ID, API
/// key, skill version context and content type.
pub fn build_headers(config: &Config) -> (r: Result<Vec<(String, String)>, Error>)
    ensures
        match r {
            Ok(h) => {
                &&& config.client_id matches Some(id) && id@.len() > 0
                &&& config.api_key matches Some(key) && key@.len() > 0
                &&& h@.len() == 4
                &&& h@[0].0@ == "ima-openapi-clientid"@ && h@[0].1@ == config.client_id->0@
                &&& h@[1].0@ == "ima-openapi-apikey"@ && h@[1].1@ == config.api_key->0@
                &&& h@[2].0@ == "ima-openapi-ctx"@ && h@[2].1@ == "skill_version="@ + config.skill_version@
                &&& h@[3].0@ == "Content-Type"@ && h@[3].1@ == "application/json"@
            },
            Err(e) => if !crate::config::usable(config.client_id) {
                e matches Error::MissingCredentials(m) && m@ == "Client ID is missing"@
            } else {
                !crate::config::usable(config.api_key) && (e matches Error::MissingCredentials(m)
                    && m@ == "API Key is missing"@)
            },
        },
{
    let client_id = match config.client_id() {
        Ok(s) => String::from_str(s),
        Err(e) => return Err(e),
    };
    let api_key = match config.api_key() {
        Ok(s) => String::from_str(s),
        Err(e) => return Err(e),
    };
    let mut ctx = String::from_str("skill_version=");
    ctx.append(config.skill_version.as_str());
    let mut headers: Vec<(String, String)> = Vec::new();
    headers.push((String::from_str("ima-openapi-clientid"), client_id));
    headers.push((String::from_str("ima-openapi-apikey"), api_key));
    headers.push((String::from_str("ima-openapi-ctx"), ctx));
    headers.push((String::from_str("Content-Type"), String::from_str("application/json")));
    Ok(headers)
}

/// The error that a response body reports: a `code` member that is an `i64`
/// other than 0, with the `msg` string member or "Unknown error".
pub open spec fn reported_error(v: JsonValue) -> Option<(i32, Seq<char>)> {
    match v.spec_get("code"@) {
        Some(c) => match c.spec_as_i64() {
            Some(code) => if code != 0 {
                Some(
                    (
                        code as i32,
                        match str_member(v, "msg"@) {
                            Some(m) => m,
                            None => "Unknown error"@,
                        },
                    ),
                )
            } else {
                None
            },
            None => None,
        },
        None => None,
    }
}

/// The failure reported for a response with a status outside 2xx.
pub open spec fn http_failure_detail(status: u16, body: Seq<char>) -> Seq<char> {
    "HTTP "@ + status_line(status) + ": "@ + body
}

fn http_failure(status: u16, body: &str) -> (e: Error)
    requires
        100 <= status <= 999,
    ensures
        e matches Error::ApiRequestFailed(m) && m@ == http_failure_detail(status, body@),
{
    let mut m = String::from_str("HTTP ");
    let st = status_text(status);
    m.append(st.as_str());
    m.append(": ");
    m.append(body);
    Error::ApiRequestFailed(m)
}

/// Checks an API response before its body is read as the expected type: the
/// status must be 2xx, the body must be JSON, and a `code` member that is an
/// integer other than 0 is an error reported by the API.
pub fn check_api_response(status: u16, body: &str) -> (r: Result<(), Error>)
    requires
        100 <= status <= 999,
    ensures
        !is_success(status) ==> (r matches Err(Error::ApiRequestFailed(m)) && m@
            == http_failure_detail(status, body@)),
        is_success(status) ==> match parsed_json(body@) {
            Err(t) => r matches Err(Error::JsonError(m)) && m@ == t,
            Ok(v) => match reported_error(v) {
                Some((code, msg)) => r matches Err(Error::ApiResponseError(c, m)) && c == code
                    && m@ == msg,
                None => r is Ok,
            },
        },
{
    if !http_success(status) {
        return Err(http_failure(status, body));
    }
    match parse_json(body) {
        Ok(value) => check_api_value(&value),
        Err(t) => Err(Error::JsonError(t)),
    }
}

/// Checks the JSON body of a 2xx response: a `code` member that is an
/// integer other than 0 is an error reported by the API.
pub fn check_api_value(value: &JsonValue) -> (r: Result<(), Error>)
    ensures
        match reported_error(*value) {
            Some((code, msg)) => r matches Err(Error::ApiResponseError(c, m)) && c == code && m@ == msg,
            None => r is Ok,
        },
{
    if let Some(c) = value.get("code") {
        if let Some(code) = c.as_i64() {
            if code != 0 {
                let msg = match get_str_member(value, "msg") {
                    Some(m) => m,
                    None => String::from_str("Unknown error"),
                };
                return Err(Error::ApiResponseError(code as i32, msg));
            }
        }
    }
    Ok(())
}

/// Checks a raw API response: its text is the result when the status is
/// 2xx, and an `ApiRequestFailed` error otherwise.
pub fn check_raw_response(status: u16, text: String) -> (r: Result<String, Error>)
    requires
        100 <= status <= 999,
    ensures
        is_success(status) ==> r == Ok::<String, Error>(text),
        !is_success(status) ==> (r matches Err(Error::ApiRequestFailed(m)) && m@
            == http_failure_detail(status, text@)),
{
    if !http_success(status) {
        return Err(http_failure(status, text.as_str()));
    }
    Ok(text)
}

// ==================== Data Structures ====================

/// Standard API response structure
#[derive(Debug, Clone)]
pub struct ApiResponse<T> {
    pub code: i32,
    pub msg: String,
    pub data: T,
}

// Knowledge Base structures
#[derive(Debug, Clone)]
pub struct KnowledgeBaseResponse {
    pub code: i32,
    pub msg: String,
    pub data: KnowledgeBaseData,
}

#[derive(Debug, Clone)]
pub struct KnowledgeBaseData {
    pub infos: HashMap<String, KnowledgeBaseInfo>,
}

#[derive(Debug, Clone)]
pub struct KnowledgeBaseInfo {
    pub id: String,
    pub name: String,
    pub cover_url: String,
    pub description: String,
    pub recommended_questions: Vec<String>,
}

#[derive(Debug, Clone)]
pub struct KnowledgeListResponse {
    pub code: i32,
    pub msg: String,
    pub data: KnowledgeListData,
}

#[derive(Debug, Clone)]
pub struct KnowledgeListData {
    pub knowledge_list: Vec<KnowledgeInfo>,
    pub folder_list: Vec<FolderInfo>,
    pub is_end: bool,
    pub next_cursor: String,
    pub current_path: Vec<FolderInfo>,
}

#[derive(Debug, Clone)]
pub struct KnowledgeInfo {
    pub media_id: String,
    pub title: String,
    pub parent_folder_id: String,
}

#[derive(Debug, Clone)]
pub struct FolderInfo {
    pub folder_id: String,
    pub name: String,
    pub file_number: i64,
    pub folder_number: i64,
    pub parent_folder_id: String,
    pub is_top: bool,
}

#[derive(Debug, Clone)]
pub struct SearchKnowledgeResponse {
    pub code: i32,
    pub msg: String,
    pub data: SearchKnowledgeData,
}

#[derive(Debug, Clone)]
pub struct SearchKnowledgeData {
    pub info_list: Vec<SearchedKnowledgeInfo>,
    pub is_end: bool,
    pub next_cursor: String,
}

#[derive(Debug, Clone)]
pub struct SearchedKnowledgeInfo {
    pub media_id: String,
    pub title: String,
    pub parent_folder_id: String,
    pub highlight_content: Option<String>,
}

#[derive(Debug, Clone)]
pub struct SearchKnowledgeBaseResponse {
    pub code: i32,
    pub msg: String,
    pub data: SearchKnowledgeBaseData,
}

#[derive(Debug, Clone)]
pub struct SearchKnowledgeBaseData {
    pub info_list: Vec<SearchedKnowledgeBaseInfo>,
    pub is_end: bool,
    pub next_cursor: String,
}

#[derive(Debug, Clone)]
pub struct SearchedKnowledgeBaseInfo {
    pub id: String,
    pub name: String,
    pub cover_url: String,
}

#[derive(Debug, Clone)]
pub struct AddableKnowledgeBaseResponse {
    pub code: i32,
    pub msg: String,
    pub data: AddableKnowledgeBaseData,
}

#[derive(Debug, Clone)]
pub struct AddableKnowledgeBaseData {
    pub addable_knowledge_base_list: Vec<AddableKnowledgeBaseInfo>,
    pub next_cursor: String,
    pub is_end: bool,
}

#[derive(Debug, Clone)]
pub struct AddableKnowledgeBaseInfo {
    pub id: String,
    pub name: String,
}

// Create Media structures
#[derive(Debug, Clone)]
pub struct CreateMediaParams {
    pub file_name: String,
    pub file_size: u64,
    pub content_type: String,
    pub knowledge_base_id: String,
    pub file_ext: String,
}

#[derive(Debug, Clone)]
pub struct CreateMediaResponse {
    pub code: i32,
    pub msg: String,
    pub data: CreateMediaData,
}

#[derive(Debug, Clone)]
pub struct CreateMediaData {
    pub media_id: String,
    pub cos_credential: CosCredential,
}

#[derive(Debug, Clone)]
pub struct CosCredential {
    pub token: String,
    pub secret_id: String,
    pub secret_key: String,
    pub start_time: i64,
    pub expired_time: i64,
    pub appid: String,
    pub bucket_name: String,
    pub region: String,
    pub custom_domain: Option<String>,
    pub cos_key: String,
}

// Add Knowledge structures
#[derive(Debug, Clone)]
pub struct AddKnowledgeParams {
    pub media_type: i32,
    pub media_id: Option<String>,
    pub title: String,
    pub knowledge_base_id: String,
    pub folder_id: Option<String>,
    pub note_info: Option<ContentInfo>,
    pub web_info: Option<ContentInfo>,
    pub session_info: Option<ContentInfo>,
    pub file_info: Option<FileInfo>,
}

#[derive(Debug, Clone)]
pub struct ContentInfo {
    pub content_id: String,
}

#[derive(Debug, Clone)]
pub struct FileInfo {
    pub cos_key: String,
    pub file_size: u64,
    pub last_modify_time: i64,
    pub password: Option<String>,
    pub file_name: String,
}

#[derive(Debug, Clone)]
pub struct AddKnowledgeResponse {
    pub code: i32,
    pub msg: String,
    pub data: AddKnowledgeData,
}

#[derive(Debug, Clone)]
pub struct AddKnowledgeData {
    pub media_id: String,
}

// Import URLs structures
#[derive(Debug, Clone)]
pub struct ImportUrlsParams {
    pub knowledge_base_id: String,
    pub folder_id: String,
    pub urls: Vec<String>,
}

#[derive(Debug, Clone)]
pub struct ImportUrlsResponse {
    pub code: i32,
    pub msg: String,
    pub data: ImportUrlsData,
}

#[derive(Debug, Clone)]
pub struct ImportUrlsData {
    pub results: HashMap<String, ImportUrlResult>,
}

#[derive(Debug, Clone)]
pub struct ImportUrlResult {
    pub url: String,
    pub ret_code: i32,
    pub media_id: Option<String>,
}

// Check Repeated Names structures
#[derive(Debug, Clone)]
pub struct CheckRepeatedNamesParams {
    pub params: Vec<CheckRepeatedNameParam>,
    pub knowledge_base_id: String,
    pub folder_id: Option<String>,
}

#[derive(Debug, Clone)]
pub struct CheckRepeatedNameParam {
    pub name: String,
    pub media_type: i32,
}

#[derive(Debug, Clone)]
pub struct CheckRepeatedNamesResponse {
    pub code: i32,
    pub msg: String,
    pub data: CheckRepeatedNamesData,
}

#[derive(Debug, Clone)]
pub struct CheckRepeatedNamesData {
    pub results: Vec<CheckRepeatedNameResult>,
}

#[derive(Debug, Clone)]
pub struct CheckRepeatedNameResult {
    pub name: String,
    pub is_repeated: bool,
}

// Get Media Info structures
#[derive(Debug, Clone)]
pub struct GetMediaInfoResponse {
    pub code: i32,
    pub msg: String,
    pub data: GetMediaInfoData,
}

#[derive(Debug, Clone)]
pub struct GetMediaInfoData {
    pub media_type: i32,
    pub url_info: Option<UrlInfo>,
    pub notebook_ext_info: Option<NotebookExtInfo>,
}

#[derive(Debug, Clone)]
pub struct UrlInfo {
    pub url: String,
    pub headers: Option<HashMap<String, String>>,
}

#[derive(Debug, Clone)]
pub struct NotebookExtInfo {
    pub notebook_id: String,
}

// Notes structures
#[derive(Debug, Clone)]
pub struct ListDocsResponse {
    pub code: i32,
    pub msg: String,
    pub data: ListDocsData,
}

#[derive(Debug, Clone)]
pub struct ListDocsData {
    pub doc_list: Vec<DocInfo>,
    pub is_end: bool,
    pub next_cursor: String,
}

#[derive(Debug, Clone)]
pub struct DocInfo {
    pub doc_id: String,
    pub title: String,
    pub created_at: i64,
    pub updated_at: i64,
}

#[derive(Debug, Clone)]
pub struct GetDocContentResponse {
    pub code: i32,
    pub msg: String,
    pub data: DocContent,
}

#[derive(Debug, Clone)]
pub struct DocContent {
    pub doc_id: String,
    pub title: String,
    pub content: String,
    pub content_format: i32,
}

#[derive(Debug, Clone)]
pub struct ImportDocParams {
    pub notebook_id: String,
    pub title: String,
    pub content: String,
    pub content_format: i32,
}

#[derive(Debug, Clone)]
pub struct ImportDocResponse {
    pub code: i32,
    pub msg: String,
    pub data: ImportDocData,
}

#[derive(Debug, Clone)]
pub struct ImportDocData {
    pub doc_id: String,
}

#[derive(Debug, Clone)]
pub struct AppendDocParams {
    pub doc_id: String,
    pub content: String,
    pub content_format: i32,
}

#[derive(Debug, Clone)]
pub struct AppendDocResponse {
    pub code: i32,
    pub msg: String,
    pub data: AppendDocData,
}

#[derive(Debug, Clone)]
pub struct AppendDocData {
    pub doc_id: String,
}

#[derive(Debug, Clone)]
pub struct SearchDocsResponse {
    pub code: i32,
    pub msg: String,
    pub data: SearchDocsData,
}

#[derive(Debug, Clone)]
pub struct SearchDocsData {
    pub doc_list: Vec<SearchedDocInfo>,
    pub is_end: bool,
    pub next_cursor: String,
}

#[derive(Debug, Clone)]
pub struct SearchedDocInfo {
    pub doc_id: String,
    pub title: String,
    pub highlight_content: Option<String>,
}

} // verus!
