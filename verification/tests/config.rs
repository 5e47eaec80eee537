use ima_cli::config::{
    default_base_url, default_skill_version, read_last_checked, should_check_update, skill_version_of_meta, Config,
};
use ima_cli::json::JsonValue;
use ima_cli::error::Error;

fn config(client_id: Option<&str>, api_key: Option<&str>) -> Config {
    Config {
        client_id: client_id.map(|s| s.to_string()),
        api_key: api_key.map(|s| s.to_string()),
        base_url: "https://ima.qq.com".to_string(),
        skill_version: "1.1.7".to_string(),
        force_update_check: false,
        last_check_file: None,
        config_path: None,
    }
}

#[test]
fn credentials_are_valid_only_when_both_present() {
    assert!(config(Some("id"), Some("key")).validate_credentials().is_ok());
    for c in [config(None, Some("key")), config(Some("id"), None), config(Some(""), Some("key")), config(Some("id"), Some(""))] {
        match c.validate_credentials() {
            Err(Error::MissingCredentials(m)) => {
                assert_eq!(m, "请设置 IMA_CLIENT_ID 和 IMA_API_KEY 环境变量，或将凭证放置在 ~/.config/ima/ 目录下。")
            }
            other => panic!("unexpected {:?}", other),
        }
        assert!(c.client_id().is_err() || c.api_key().is_err());
    }
}

#[test]
fn client_id_and_api_key_getters() {
    let c = config(Some("id"), Some("key"));
    assert_eq!(c.client_id().unwrap(), "id");
    assert_eq!(c.api_key().unwrap(), "key");
    match config(Some(""), None).client_id() {
        Err(Error::MissingCredentials(m)) => assert_eq!(m, "Client ID is missing"),
        other => panic!("unexpected {:?}", other),
    }
    match config(None, None).api_key() {
        Err(Error::MissingCredentials(m)) => assert_eq!(m, "API Key is missing"),
        other => panic!("unexpected {:?}", other),
    }
}

#[test]
fn environment_overrides_file_and_legacy_names_fill_gaps() {
    let loaded = Config::load(
        Ok(config(Some("file-id"), None)),
        Some("env-id".to_string()),
        Some("".to_string()),
        Some("legacy-id".to_string()),
        Some("legacy-key".to_string()),
        std::path::PathBuf::from("/home/u/.config/ima/last_update_check"),
    )
    .unwrap();
    assert_eq!(loaded.client_id.as_deref(), Some("env-id"));
    assert_eq!(loaded.api_key.as_deref(), Some("legacy-key"));
    assert_eq!(loaded.last_check_file.as_deref(), Some(std::path::Path::new("/home/u/.config/ima/last_update_check")));

    let loaded = Config::load(Ok(config(Some(""), None)), None, None, Some("legacy-id".to_string()), None, "f".into()).unwrap();
    assert_eq!(loaded.client_id.as_deref(), Some(""));
    assert_eq!(loaded.api_key, None);
}

#[test]
fn load_passes_file_errors_on() {
    let r = Config::load(Err(Error::InvalidConfig("Failed to parse config file: x".into())), None, None, None, None, "f".into());
    match r {
        Err(Error::InvalidConfig(m)) => assert_eq!(m, "Failed to parse config file: x"),
        other => panic!("unexpected {:?}", other),
    }
}

#[test]
fn legacy_files_are_trimmed() {
    let c = Config::load_legacy_config(Some("  abc \n"), Some(" \t\n"), "1.1.7".to_string(), "/cfg/config.toml".into());
    assert_eq!(c.client_id.as_deref(), Some("abc"));
    assert_eq!(c.api_key, None);
    assert_eq!(c.base_url, "https://ima.qq.com");
    assert_eq!(c.config_path.as_deref(), Some(std::path::Path::new("/cfg/config.toml")));
    assert!(!c.force_update_check);
    let c = Config::load_legacy_config(None, Some("k"), "1.1.7".to_string(), "p".into());
    assert_eq!(c.client_id, None);
    assert_eq!(c.api_key.as_deref(), Some("k"));
}

#[test]
fn defaults() {
    assert_eq!(default_base_url(), "https://ima.qq.com");
    assert_eq!(default_skill_version(None), "1.1.7");
    assert_eq!(default_skill_version(Some("{\"version\": \"2.0.1\"}")), "2.0.1");
    assert_eq!(default_skill_version(Some("{\"version\": 2}")), "1.1.7");
    assert_eq!(default_skill_version(Some("not json")), "1.1.7");
    assert_eq!(default_skill_version(Some("[\"version\"]")), "1.1.7");
}

#[test]
fn last_checked_and_update_due() {
    assert_eq!(read_last_checked(Some("2024-01-02\n")), "2024-01-02");
    assert_eq!(read_last_checked(None), "");
    assert!(!should_check_update("2024-01-02", "2024-01-02", false));
    assert!(should_check_update("2024-01-01", "2024-01-02", false));
    assert!(should_check_update("2024-01-02", "2024-01-02", true));
    assert!(should_check_update("", "2024-01-02", false));
}

#[test]
fn skill_version_from_parsed_meta() {
    let meta = JsonValue::Object(vec![("version".to_string(), JsonValue::Str("2.3.4".to_string()))]);
    assert_eq!(skill_version_of_meta(&meta), "2.3.4");
    let not_text = JsonValue::Object(vec![("version".to_string(), JsonValue::Bool(true))]);
    assert_eq!(skill_version_of_meta(&not_text), "1.1.7");
    assert_eq!(skill_version_of_meta(&JsonValue::Null), "1.1.7");
}

#[test]
fn recorded_date_reads_back_as_itself() {
    let recorded = read_last_checked(Some("2024-05-01"));
    assert_eq!(recorded, "2024-05-01");
    assert!(!should_check_update(&recorded, "2024-05-01", false));
    assert!(should_check_update(&recorded, "2024-05-01", true));
    assert!(should_check_update(&recorded, "2024-05-02", false));
}
