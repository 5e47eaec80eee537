//! Configuration: credentials, base URL, skill version and the files that
//! hold them. Reading files and the environment is left to the caller; this
//! module holds the rules that decide what the configuration is.

use vstd::prelude::*;
use std::path::PathBuf;

use crate::error::Error;
use crate::json::{JsonValue, parse_json, get_str_member, parsed_json, str_member};
use crate::text::{trim, trim_end, trim_start, trim_str};

verus! {

/// Configuration of the client.
#[derive(Debug, Clone)]
pub struct Config {
    /// Client ID for IMA API authentication
    pub client_id: Option<String>,
    /// API Key for IMA API authentication
    pub api_key: Option<String>,
    /// Base URL for IMA API
    pub base_url: String,
    /// Skill version (from meta.json or default)
    pub skill_version: String,
    /// Force update check
    pub force_update_check: bool,
    /// Last check file path (for update checking)
    pub last_check_file: Option<PathBuf>,
    /// Config file path
    pub config_path: Option<PathBuf>,
}

#[verifier::external_type_specification]
#[verifier::external_body]
pub struct ExPathBuf(PathBuf);

/// `PathBuf::clone`. Claimed: the copy is the same path.
#[verifier::external_body]
pub(crate) fn clone_path(p: &PathBuf) -> (r: PathBuf)
    ensures
        r == *p,
{
    p.clone()
}

/// The characters of an optional string.
pub open spec fn opt_view(o: Option<String>) -> Option<Seq<char>> {
    match o {
        Some(s) => Some(s@),
        None => None,
    }
}

/// The characters of an optional string slice.
pub open spec fn opt_str_view(o: Option<&str>) -> Option<Seq<char>> {
    match o {
        Some(s) => Some(s@),
        None => None,
    }
}

/// A credential is usable when it is present and not empty.
pub open spec fn usable(o: Option<String>) -> bool {
    o matches Some(s) && s@.len() > 0
}

/// The skill version used when `meta.json` gives none.
pub open spec fn fallback_skill_version() -> Seq<char> {
    "1.1.7"@
}

/// The skill version that a `meta.json` text gives: its string member
/// `version`, or the fallback when the file is missing, is not JSON, or has
/// no such string member.
pub open spec fn skill_version_from_meta(meta: Option<Seq<char>>) -> Seq<char> {
    match meta {
        Some(text) => match parsed_json(text) {
            Ok(v) => meta_version(v),
            Err(_) => fallback_skill_version(),
        },
        None => fallback_skill_version(),
    }
}

/// The skill version that a parsed `meta.json` gives: its string member
/// `version`, or the fallback.
pub open spec fn meta_version(meta: JsonValue) -> Seq<char> {
    match str_member(meta, "version"@) {
        Some(s) => s,
        None => fallback_skill_version(),
    }
}

/// A value taken from the environment replaces the current one when it is
/// set and not empty.
pub open spec fn env_override(current: Option<String>, env: Option<String>) -> Option<String> {
    match env {
        Some(e) => if e@.len() > 0 {
            Some(e)
        } else {
            current
        },
        None => current,
    }
}

/// A legacy environment value is used only when no value is set at all.
pub open spec fn env_fallback(current: Option<String>, env: Option<String>) -> Option<String> {
    if current is None {
        env_override(current, env)
    } else {
        current
    }
}

/// The credential that a legacy credential file gives: its trimmed content,
/// when the file could be read and that is not empty.
pub open spec fn legacy_credential(content: Option<Seq<char>>) -> Option<Seq<char>> {
    match content {
        Some(c) => if trim(c).len() > 0 {
            Some(trim(c))
        } else {
            None
        },
        None => None,
    }
}

/// The default base URL.
pub fn default_base_url() -> (s: String)
    ensures
        s@ == "https://ima.qq.com"@,
{
    String::from_str("https://ima.qq.com")
}

/// The default skill version, given the content of `meta.json` when it was
/// found and read.
pub fn default_skill_version(meta_json: Option<&str>) -> (s: String)
    ensures
        s@ == skill_version_from_meta(opt_str_view(meta_json)),
{
    if let Some(text) = meta_json {
        if let Ok(meta) = parse_json(text) {
            return skill_version_of_meta(&meta);
        }
    }
    String::from_str("1.1.7")
}

/// The skill version that a parsed `meta.json` gives.
pub fn skill_version_of_meta(meta: &JsonValue) -> (s: String)
    ensures
        s@ == meta_version(*meta),
{
    match get_str_member(meta, "version") {
        Some(version) => version,
        None => String::from_str("1.1.7"),
    }
}

fn override_from_env(current: Option<String>, env: Option<String>) -> (r: Option<String>)
    ensures
        r == env_override(current, env),
{
    match env {
        Some(e) => if e.as_str().is_empty() {
            current
        } else {
            Some(e)
        },
        None => current,
    }
}

fn trimmed_credential(content: Option<&str>) -> (r: Option<String>)
    ensures
        opt_view(r) == legacy_credential(opt_str_view(content)),
{
    match content {
        Some(c) => {
            let t = trim_str(c);
            if t.as_str().is_empty() {
                None
            } else {
                Some(t)
            }
        },
        None => None,
    }
}

/// How a loaded credential (client ID or API key) comes out of the file value
/// and the two environment variables: a non-empty `IMA_...` value wins over
/// whatever the file gave; otherwise the file's value stays when there is
/// one; otherwise a non-empty legacy `IMA_OPENAPI_...` value is used; and
/// otherwise there is none.
pub proof fn lemma_credential_precedence(
    file_value: Option<String>,
    ima_value: Option<String>,
    legacy_value: Option<String>,
)
    ensures
        ({
            let loaded = env_fallback(env_override(file_value, ima_value), legacy_value);
            let ima_set = ima_value matches Some(v) && v@.len() > 0;
            let legacy_set = legacy_value matches Some(v) && v@.len() > 0;
            &&& ima_set ==> loaded == ima_value
            &&& !ima_set && file_value is Some ==> loaded == file_value
            &&& !ima_set && file_value is None && legacy_set ==> loaded == legacy_value
            &&& !ima_set && file_value is None && !legacy_set ==> loaded is None
        }),
{
}

impl Config {
    /// Applies the environment to the configuration read from file:
    /// `IMA_CLIENT_ID` and `IMA_API_KEY` override it when set and not empty;
    /// `IMA_OPENAPI_CLIENTID` and `IMA_OPENAPI_APIKEY` are used only when no
    /// value is set at all. A failure to read the file is passed on.
    pub fn load(
        from_file: Result<Config, Error>,
        ima_client_id: Option<String>,
        ima_api_key: Option<String>,
        openapi_client_id: Option<String>,
        openapi_api_key: Option<String>,
        last_check_file: PathBuf,
    ) -> (r: Result<Config, Error>)
        ensures
            match from_file {
                Err(e) => r == Err::<Config, Error>(e),
                Ok(f) => r == Ok::<Config, Error>(
                    Config {
                        client_id: env_fallback(env_override(f.client_id, ima_client_id), openapi_client_id),
                        api_key: env_fallback(env_override(f.api_key, ima_api_key), openapi_api_key),
                        base_url: f.base_url,
                        skill_version: f.skill_version,
                        force_update_check: f.force_update_check,
                        last_check_file: Some(last_check_file),
                        config_path: f.config_path,
                    },
                ),
            },
    {
        let mut config = match from_file {
            Ok(c) => c,
            Err(e) => return Err(e),
        };
        config.client_id = override_from_env(config.client_id, ima_client_id);
        config.api_key = override_from_env(config.api_key, ima_api_key);
        if config.client_id.is_none() {
            config.client_id = override_from_env(config.client_id, openapi_client_id);
        }
        if config.api_key.is_none() {
            config.api_key = override_from_env(config.api_key, openapi_api_key);
        }
        config.last_check_file = Some(last_check_file);
        Ok(config)
    }

    /// The configuration given by the legacy credential files, from their
    /// contents (`None` when a file is missing or unreadable).
    pub fn load_legacy_config(
        client_id_content: Option<&str>,
        api_key_content: Option<&str>,
        skill_version: String,
        config_path: PathBuf,
    ) -> (c: Config)
        ensures
            opt_view(c.client_id) == legacy_credential(opt_str_view(client_id_content)),
            opt_view(c.api_key) == legacy_credential(opt_str_view(api_key_content)),
            c.base_url@ == "https://ima.qq.com"@,
            c.skill_version == skill_version,
            !c.force_update_check,
            c.last_check_file is None,
            c.config_path == Some(config_path),
    {
        Config {
            client_id: trimmed_credential(client_id_content),
            api_key: trimmed_credential(api_key_content),
            base_url: default_base_url(),
            skill_version,
            force_update_check: false,
            last_check_file: None,
            config_path: Some(config_path),
        }
    }

    /// Validate that credentials are present.
    pub fn validate_credentials(&self) -> (r: Result<(), Error>)
        ensures
            r is Ok <==> (usable(self.client_id) && usable(self.api_key)),
            r matches Err(e) ==> e matches Error::MissingCredentials(m)
                && m@ == "请设置 IMA_CLIENT_ID 和 IMA_API_KEY 环境变量，或将凭证放置在 ~/.config/ima/ 目录下。"@,
    {
        match (&self.client_id, &self.api_key) {
            (Some(client_id), Some(api_key)) => if !client_id.as_str().is_empty()
                && !api_key.as_str().is_empty() {
                return Ok(());
            },
            _ => {},
        }
        Err(
            Error::MissingCredentials(
                String::from_str(
                    "请设置 IMA_CLIENT_ID 和 IMA_API_KEY 环境变量，或将凭证放置在 ~/.config/ima/ 目录下。",
                ),
            ),
        )
    }

    /// Get the client ID.
    pub fn client_id(&self) -> (r: Result<&str, Error>)
        ensures
            r is Ok <==> usable(self.client_id),
            r matches Ok(s) ==> self.client_id matches Some(id) && s@ == id@,
            r matches Err(e) ==> e matches Error::MissingCredentials(m) && m@ == "Client ID is missing"@,
    {
        match &self.client_id {
            Some(s) => if !s.as_str().is_empty() {
                return Ok(s.as_str());
            },
            None => {},
        }
        Err(Error::MissingCredentials(String::from_str("Client ID is missing")))
    }

    /// Get the API key.
    pub fn api_key(&self) -> (r: Result<&str, Error>)
        ensures
            r is Ok <==> usable(self.api_key),
            r matches Ok(s) ==> self.api_key matches Some(k) && s@ == k@,
            r matches Err(e) ==> e matches Error::MissingCredentials(m) && m@ == "API Key is missing"@,
    {
        match &self.api_key {
            Some(s) => if !s.as_str().is_empty() {
                return Ok(s.as_str());
            },
            None => {},
        }
        Err(Error::MissingCredentials(String::from_str("API Key is missing")))
    }
}

/// The last check date recorded in the last-check file, from its content
/// (`None` when the file could not be read): trimmed, or empty.
pub fn read_last_checked(file_content: Option<&str>) -> (s: String)
    ensures
        s@ == match opt_str_view(file_content) {
            Some(c) => trim(c),
            None => Seq::<char>::empty(),
        },
{
    match file_content {
        Some(c) => trim_str(c),
        None => String::new(),
    }
}

/// Whether the update check is due: always when forced, otherwise when the
/// recorded date is not today's.
pub open spec fn update_check_is_due(last_checked: Seq<char>, today: Seq<char>, force: bool) -> bool {
    force || last_checked != today
}

/// The text of a date as the update check records it (`%Y-%m-%d`): digits
/// and `-`.
pub open spec fn is_date_text(s: Seq<char>) -> bool {
    forall|i: int| 0 <= i < s.len() ==> (48 <= (#[trigger] s[i] as u32) <= 57 || s[i] == '-')
}

/// A recorded date reads back as itself: when the last-check file holds a
/// date that the update check wrote, reading it gives that date, so on the
/// same day the check is not due again unless forced; a forced check is due
/// whatever the file holds.
pub proof fn lemma_recorded_date_read_back(date: Seq<char>, last_checked: Seq<char>, today: Seq<char>)
    requires
        is_date_text(date),
    ensures
        trim(date) == date,
        !update_check_is_due(trim(date), date, false),
        update_check_is_due(last_checked, today, true),
{
    if date.len() > 0 {
        assert(48 <= (date[0] as u32) <= 57 || date[0] == '-');
        assert(48 <= (date[date.len() - 1] as u32) <= 57 || date[date.len() - 1] == '-');
    }
    assert(trim_start(date) == date);
    assert(trim_end(date) == date);
}

/// Whether the update check is due, given the recorded date.
pub fn should_check_update(last_checked: &str, today: &str, force: bool) -> (b: bool)
    ensures
        b == update_check_is_due(last_checked@, today@, force),
{
    if force {
        return true;
    }
    !crate::text::str_equal(last_checked, today)
}

} // verus!
