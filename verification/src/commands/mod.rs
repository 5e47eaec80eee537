//! Command rules: the decisions of the knowledge base and notes commands,
//! of the legacy API command and of the update check.

pub mod kb;
pub mod notes;

use vstd::prelude::*;

use crate::config::{Config, clone_path, opt_view, opt_str_view};
use std::path::PathBuf;
use crate::error::Error;
use crate::json::{JsonValue, get_str_member, parse_json, parsed_json, str_member};
use crate::text::{str_equal, trim, trim_str};

verus! {

// ---------------------------------------------------------------------------
// Legacy API command
// ---------------------------------------------------------------------------

/// The path of the update check endpoint.
pub open spec fn check_update_path() -> Seq<char> {
    "openapi/check_skill_update"@
}

/// The boolean member `key` of a JSON value, if it has one.
pub open spec fn bool_member(v: JsonValue, key: Seq<char>) -> Option<bool> {
    match v.spec_get(key) {
        Some(m) => m.spec_as_bool(),
        None => None,
    }
}

/// What a legacy API call runs with: the configuration with the options
/// applied, and whether the update check runs first.
#[derive(Debug)]
pub struct LegacyApiPlan {
    pub config: Config,
    pub check_update_first: bool,
}

fn clone_opt(o: &Option<String>) -> (r: Option<String>)
    ensures
        r == *o,
{
    match o {
        Some(s) => Some(s.clone()),
        None => None,
    }
}

fn clone_opt_path(o: &Option<PathBuf>) -> (r: Option<PathBuf>)
    ensures
        r == *o,
{
    match o {
        Some(p) => Some(clone_path(p)),
        None => None,
    }
}

fn bool_option(v: &JsonValue, key: &str) -> (r: Option<bool>)
    ensures
        r == bool_member(*v, key@),
{
    match v.get(key) {
        Some(m) => m.as_bool(),
        None => None,
    }
}

/// Plans a legacy API call (compatible with `ima_api.cjs`): `body` and
/// `options` must be JSON; the plan is then `legacy_plan_with_options` of the
/// parsed options.
pub fn plan_legacy_api(api_path: &str, body: &str, options: &str, config: &Config) -> (r: Result<
    LegacyApiPlan,
    Error,
>)
    ensures
        match parsed_json(body@) {
            Err(t) => r matches Err(Error::InvalidArgument(m)) && m@ == "请求 body 不是合法的 JSON: "@ + t,
            Ok(_) => match parsed_json(options@) {
                Err(t) => r matches Err(Error::InvalidArgument(m)) && m@ == "options 参数不是合法的 JSON: "@
                    + t,
                Ok(opts) => r matches Ok(plan) && legacy_plan_of(api_path@, opts, *config, plan),
            },
        },
{
    let _body_value = match parse_json(body) {
        Ok(v) => v,
        Err(t) => {
            let mut m = String::from_str("请求 body 不是合法的 JSON: ");
            m.append(t.as_str());
            return Err(Error::InvalidArgument(m));
        },
    };
    let opts = match parse_json(options) {
        Ok(v) => v,
        Err(t) => {
            let mut m = String::from_str("options 参数不是合法的 JSON: ");
            m.append(t.as_str());
            return Err(Error::InvalidArgument(m));
        },
    };
    Ok(legacy_plan_with_options(api_path, &opts, config))
}

/// Whether `plan` is the plan of a legacy API call with the parsed options
/// `opts`: the string options `clientId`, `apiKey` and `baseUrl` and the
/// boolean option `forceCheck` take the place of the configured values; the
/// update check runs first when it is forced and the call is not itself the
/// update check.
pub open spec fn legacy_plan_of(api_path: Seq<char>, opts: JsonValue, config: Config, plan: LegacyApiPlan) -> bool {
    let c = plan.config;
    &&& opt_view(c.client_id) == match str_member(opts, "clientId"@) {
        Some(s) => Some(s),
        None => opt_view(config.client_id),
    }
    &&& opt_view(c.api_key) == match str_member(opts, "apiKey"@) {
        Some(s) => Some(s),
        None => opt_view(config.api_key),
    }
    &&& c.base_url@ == match str_member(opts, "baseUrl"@) {
        Some(s) => s,
        None => config.base_url@,
    }
    &&& c.skill_version == config.skill_version
    &&& c.force_update_check == match bool_member(opts, "forceCheck"@) {
        Some(b) => b,
        None => config.force_update_check,
    }
    &&& c.last_check_file == config.last_check_file
    &&& c.config_path == config.config_path
    &&& plan.check_update_first == (api_path != check_update_path() && c.force_update_check)
}

/// The options of a legacy API call take the place of the configuration:
/// a string option `clientId`, `apiKey` or `baseUrl` is used as it is,
/// whatever was configured, and the configured value stays only when the
/// option is absent or not a string; a boolean `forceCheck` likewise decides
/// whether the update check is forced; the other settings are the
/// configured ones; and the update check runs first exactly when it is
/// forced and the call is not the update check itself.
pub proof fn lemma_legacy_options_take_precedence(
    api_path: Seq<char>,
    opts: JsonValue,
    config: Config,
    plan: LegacyApiPlan,
)
    requires
        legacy_plan_of(api_path, opts, config, plan),
    ensures
        str_member(opts, "clientId"@) matches Some(s) ==> plan.config.client_id matches Some(c) && c@ == s,
        str_member(opts, "clientId"@) is None ==> opt_view(plan.config.client_id) == opt_view(config.client_id),
        str_member(opts, "apiKey"@) matches Some(s) ==> plan.config.api_key matches Some(k) && k@ == s,
        str_member(opts, "apiKey"@) is None ==> opt_view(plan.config.api_key) == opt_view(config.api_key),
        str_member(opts, "baseUrl"@) matches Some(s) ==> plan.config.base_url@ == s,
        str_member(opts, "baseUrl"@) is None ==> plan.config.base_url@ == config.base_url@,
        bool_member(opts, "forceCheck"@) matches Some(b) ==> plan.config.force_update_check == b,
        bool_member(opts, "forceCheck"@) is None ==> plan.config.force_update_check == config.force_update_check,
        plan.config.skill_version == config.skill_version,
        plan.config.last_check_file == config.last_check_file,
        plan.config.config_path == config.config_path,
        plan.check_update_first <==> (api_path != "openapi/check_skill_update"@ && plan.config.force_update_check),
{
}

/// The plan of a legacy API call from its parsed options.
pub fn legacy_plan_with_options(api_path: &str, opts: &JsonValue, config: &Config) -> (plan: LegacyApiPlan)
    ensures
        legacy_plan_of(api_path@, *opts, *config, plan),
{
    let client_id = match get_str_member(opts, "clientId") {
        Some(s) => Some(s),
        None => clone_opt(&config.client_id),
    };
    let api_key = match get_str_member(opts, "apiKey") {
        Some(s) => Some(s),
        None => clone_opt(&config.api_key),
    };
    let base_url = match get_str_member(opts, "baseUrl") {
        Some(s) => s,
        None => config.base_url.clone(),
    };
    let force_update_check = match bool_option(opts, "forceCheck") {
        Some(b) => b,
        None => config.force_update_check,
    };
    let api_config = Config {
        client_id,
        api_key,
        base_url,
        skill_version: config.skill_version.clone(),
        force_update_check,
        last_check_file: clone_opt_path(&config.last_check_file),
        config_path: clone_opt_path(&config.config_path),
    };
    let check_update_first = !str_equal(api_path, "openapi/check_skill_update") && force_update_check;
    LegacyApiPlan { config: api_config, check_update_first }
}

// ---------------------------------------------------------------------------
// Update check
// ---------------------------------------------------------------------------

/// The file that records the date of the last update check.
pub fn update_check_file(config: &Config) -> (r: Result<PathBuf, Error>)
    ensures
        match config.last_check_file {
            Some(f) => r == Ok::<PathBuf, Error>(f),
            None => r matches Err(Error::InvalidConfig(m)) && m@ == "Last check file path not set"@,
        },
{
    match &config.last_check_file {
        Some(f) => Ok(clone_path(f)),
        None => Err(Error::InvalidConfig(String::from_str("Last check file path not set"))),
    }
}

/// Whether the update check runs, from the content of the last-check file
/// (`None` when it could not be read): it is skipped when the recorded date,
/// trimmed, is today's and the check is not forced.
pub fn update_check_due(last_check_content: Option<&str>, today: &str, force: bool) -> (b: bool)
    ensures
        b == !(trim(
            match opt_str_view(last_check_content) {
                Some(c) => c,
                None => Seq::<char>::empty(),
            },
        ) == today@ && !force),
{
    let content = match last_check_content {
        Some(c) => trim_str(c),
        None => String::new(),
    };
    assert(trim(Seq::<char>::empty()) =~= Seq::<char>::empty());
    !(str_equal(content.as_str(), today) && !force)
}

/// The update check and `should_check_update` agree: the check runs exactly
/// when `should_check_update` says it is due for the date read back from the
/// same file content.
pub proof fn lemma_update_check_agrees(last_check_content: Option<Seq<char>>, today: Seq<char>, force: bool)
    ensures
        !(trim(
            match last_check_content {
                Some(c) => c,
                None => Seq::<char>::empty(),
            },
        ) == today && !force) == (force || match last_check_content {
            Some(c) => trim(c),
            None => Seq::<char>::empty(),
        } != today),
{
    assert(trim(Seq::<char>::empty()) == Seq::<char>::empty());
}

/// The `data` member of an update check response, when the response is JSON
/// and has one.
pub open spec fn update_data(response: Seq<char>) -> Option<JsonValue> {
    match parsed_json(response) {
        Ok(v) => v.spec_get("data"@),
        Err(_) => None,
    }
}

/// The message that announces a new version.
pub open spec fn update_message(latest: Seq<char>, current: Seq<char>, instruction: Seq<char>) -> Seq<char> {
    "发现新版本 skill："@ + latest + "（当前版本："@ + current + "）。"@ + instruction
}

/// Whether `r` is the result of an update check whose response `data` member
/// is `data`: `UpdateAvailable` when its `latest_version` is a string other
/// than the current version, with its `instruction` or "请更新。"; otherwise
/// an empty output.
pub open spec fn update_outcome(data: Option<JsonValue>, skill_version: Seq<char>, r: Result<String, Error>) -> bool {
    match data {
        Some(data) => match str_member(data, "latest_version"@) {
            Some(latest) => if latest != skill_version {
                r matches Err(Error::UpdateAvailable(m)) && m@ == update_message(
                    latest,
                    skill_version,
                    match str_member(data, "instruction"@) {
                        Some(i) => i,
                        None => "请更新。"@,
                    },
                )
            } else {
                r matches Ok(s) && s@.len() == 0
            },
            None => r matches Ok(s) && s@.len() == 0,
        },
        None => r matches Ok(s) && s@.len() == 0,
    }
}

/// The result of an update check response; a response that is not JSON
/// counts as no update.
pub fn evaluate_update_response(response: &str, skill_version: &str) -> (r: Result<String, Error>)
    ensures
        update_outcome(update_data(response@), skill_version@, r),
{
    let value = match parse_json(response) {
        Ok(v) => v,
        Err(_) => JsonValue::Null,
    };
    evaluate_update_value(&value, skill_version)
}

/// The result of an update check from the parsed response.
pub fn evaluate_update_value(value: &JsonValue, skill_version: &str) -> (r: Result<String, Error>)
    ensures
        update_outcome(value.spec_get("data"@), skill_version@, r),
{
    if let Some(data) = value.get("data") {
        if let Some(latest) = get_str_member(data, "latest_version") {
            if !str_equal(latest.as_str(), skill_version) {
                let instruction = match get_str_member(data, "instruction") {
                    Some(i) => i,
                    None => String::from_str("请更新。"),
                };
                let mut m = String::from_str("发现新版本 skill：");
                m.append(latest.as_str());
                m.append("（当前版本：");
                m.append(skill_version);
                m.append("）。");
                m.append(instruction.as_str());
                return Err(Error::UpdateAvailable(m));
            }
        }
    }
    Ok(String::new())
}

/// What the update check does once its request has been answered: it
/// records today's date only when the request succeeded, and its result.
#[derive(Debug)]
pub struct UpdateCheckOutcome {
    pub record_date: bool,
    pub result: Result<String, Error>,
}

/// The update check after its request: a failed request (network or API
/// error) skips the check, with an empty output and no date recorded; an
/// answered one records the date and is evaluated as
/// `evaluate_update_response` does.
pub fn update_check_after_request(response: Result<String, Error>, skill_version: &str) -> (r: UpdateCheckOutcome)
    ensures
        match response {
            Ok(text) => r.record_date && update_outcome(update_data(text@), skill_version@, r.result),
            Err(_) => !r.record_date && (r.result matches Ok(s) && s@.len() == 0),
        },
{
    match response {
        Ok(text) => UpdateCheckOutcome {
            record_date: true,
            result: evaluate_update_response(text.as_str(), skill_version),
        },
        Err(_) => UpdateCheckOutcome { record_date: false, result: Ok(String::new()) },
    }
}

/// Whether a legacy API call goes on after the update check that ran first:
/// when the check found an update, the call stops with that `UpdateAvailable`
/// error and its request is not sent; any other outcome of the check lets the
/// call go on.
pub fn legacy_call_after_update_check(check: Result<String, Error>) -> (r: Result<(), Error>)
    ensures
        match check {
            Err(Error::UpdateAvailable(m)) => r matches Err(Error::UpdateAvailable(m2)) && m2 == m,
            _ => r is Ok,
        },
{
    match check {
        Err(Error::UpdateAvailable(m)) => Err(Error::UpdateAvailable(m)),
        _ => Ok(()),
    }
}

} // verus!
