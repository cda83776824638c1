use rdm::commands::{
    add_profile, delete_profile, list_profiles, show_config, use_profile, ProfileAdd,
    ProfileDelete, ProfileUse,
};
use rdm::config::{load_config, Config};
use rdm::error::AppExitCode;
use rdm::profile::{Profile, ProfileStore};

#[test]
fn test_profile_redacted_key() {
    let profile = Profile::new("test", "https://example.com", "abcd1234efgh5678");
    assert_eq!(profile.redacted_api_key(), "abcd...5678");
}

#[test]
fn test_profile_redacted_key_short() {
    let profile = Profile::new("test", "https://example.com", "short");
    assert_eq!(profile.redacted_api_key(), "****");
}

#[test]
fn test_profile_store_add() {
    let mut store = ProfileStore::default();
    store.add(Profile::new("work", "https://work.example.com", "key1"));
    assert_eq!(store.active, Some("work".to_string()));
    assert!(store.get("work").is_some());
}

#[test]
fn test_profile_store_delete() {
    let mut store = ProfileStore::default();
    store.add(Profile::new("work", "https://work.example.com", "key1"));
    store.add(Profile::new("home", "https://home.example.com", "key2"));
    store.set_active("work").unwrap();

    store.delete("work").unwrap();
    assert!(store.get("work").is_none());
    assert_eq!(store.active, Some("home".to_string()));
}

#[test]
fn deleting_last_active_profile_clears_active() {
    let mut store = ProfileStore::default();
    store.add(Profile::new("solo", "https://solo.example.com", "k"));
    store.delete("solo").unwrap();
    assert_eq!(store.active, None);
    assert!(store.list().is_empty());
}

#[test]
fn deleting_inactive_profile_keeps_active() {
    let mut store = ProfileStore::default();
    store.add(Profile::new("a", "https://a", "ka"));
    store.add(Profile::new("b", "https://b", "kb"));
    store.delete("b").unwrap();
    assert_eq!(store.active, Some("a".to_string()));
}

#[test]
fn missing_profile_is_not_found() {
    let mut store = ProfileStore::default();
    let err = store.delete("ghost").unwrap_err();
    assert_eq!(err.exit_code(), AppExitCode::NotFound);
    assert_eq!(err.display_text(), "Not found: Profile #ghost");
    let err = store.set_active("ghost").unwrap_err();
    assert_eq!(err.code(), "NOT_FOUND");
}

#[test]
fn adding_same_name_replaces_in_place() {
    let mut store = ProfileStore::default();
    store.add(Profile::new("w", "https://old", "k1"));
    store.add(Profile::new("x", "https://x", "k2"));
    store.add(Profile::new("w", "https://new", "k3"));
    assert_eq!(store.list(), vec!["w".to_string(), "x".to_string()]);
    assert_eq!(store.get("w").unwrap().url, "https://new");
    assert_eq!(store.get_active().unwrap().api_key, "k3");
}

#[test]
fn profile_commands_on_store() {
    let mut store = ProfileStore::default();
    let added = add_profile(
        &ProfileAdd { name: "w".into(), url: "https://w".into(), api_key: "key".into() },
        &mut store,
    );
    assert!(added.is_active);
    let second = add_profile(
        &ProfileAdd { name: "h".into(), url: "https://h".into(), api_key: "key2".into() },
        &mut store,
    );
    assert!(!second.is_active);
    assert_eq!(use_profile(&ProfileUse { name: "h".into() }, &mut store).unwrap().name, "h");
    let listed = list_profiles(&store);
    assert_eq!(listed.profiles.len(), 2);
    assert!(!listed.profiles[0].is_active);
    assert!(listed.profiles[1].is_active);
    assert_eq!(listed.active, Some("h".to_string()));
    assert!(delete_profile(&ProfileDelete { name: "zz".into() }, &mut store).is_err());
    delete_profile(&ProfileDelete { name: "h".into() }, &mut store).unwrap();
    assert_eq!(store.active, Some("w".to_string()));
}

fn file_store() -> ProfileStore {
    let mut store = ProfileStore::default();
    store.add(Profile::new("test", "https://file.example.com", "file_key"));
    store
}

#[test]
fn test_cli_flags_highest_precedence() {
    let config = load_config(
        Some("https://cli.example.com"),
        Some("cli_key"),
        Some("https://env.example.com"),
        Some("env_key"),
        &ProfileStore::default(),
    )
    .unwrap();
    assert_eq!(config.url, "https://cli.example.com");
    assert_eq!(config.api_key, "cli_key");
}

#[test]
fn test_env_vars_over_config_file() {
    let config = load_config(
        None,
        None,
        Some("https://env.example.com"),
        Some("env_key"),
        &file_store(),
    )
    .unwrap();
    assert_eq!(config.url, "https://env.example.com");
    assert_eq!(config.api_key, "env_key");
}

#[test]
fn test_config_file_fallback() {
    let config = load_config(None, None, None, None, &file_store()).unwrap();
    assert_eq!(config.url, "https://file.example.com");
    assert_eq!(config.api_key, "file_key");
    assert_eq!(config.profile_name, Some("test".to_string()));
}

#[test]
fn test_no_config_error() {
    let result = load_config(None, None, None, None, &ProfileStore::default());
    assert!(result.is_err());
    assert_eq!(result.unwrap_err().code(), "CONFIG_ERROR");
}

#[test]
fn url_precedence_each_field_on_its_own() {
    let store = file_store();
    let c = load_config(Some("A"), None, Some("B"), None, &store).unwrap();
    assert_eq!((c.url.as_str(), c.api_key.as_str()), ("A", "file_key"));
    assert_eq!(c.profile_name, Some("test".to_string()));
    let c = load_config(None, Some("k"), Some("B"), None, &store).unwrap();
    assert_eq!((c.url.as_str(), c.api_key.as_str()), ("B", "k"));
    let c = load_config(None, None, None, Some("ek"), &store).unwrap();
    assert_eq!((c.url.as_str(), c.api_key.as_str()), ("https://file.example.com", "ek"));
    let c = load_config(Some("A"), None, None, Some("ek"), &ProfileStore::default()).unwrap();
    assert_eq!(c.profile_name, None);
    assert!(load_config(Some("A"), None, Some("B"), None, &ProfileStore::default()).is_err());
}

#[test]
fn config_show_reports_source() {
    let c = Config { url: "u".into(), api_key: "abcdefghijkl".into(), profile_name: None };
    let info = show_config(&c, true);
    assert_eq!(info.source, "environment variables");
    assert_eq!(info.api_key_redacted, "abcd...ijkl");
    assert_eq!(show_config(&c, false).source, "CLI flags");
    let c = Config { url: "u".into(), api_key: "k".into(), profile_name: Some("p".into()) };
    assert_eq!(show_config(&c, true).source, "config file");
    assert_eq!(c.redacted_api_key(), "****");
}

#[test]
fn store_from_loaded_parts() {
    let entries = vec![
        Profile::new("home", "https://h", "k1"),
        Profile::new("work", "https://w", "k2"),
    ];
    let store = ProfileStore::from_parts(entries.clone(), Some("work".to_string()));
    assert_eq!(store.active, Some("work".to_string()));
    assert_eq!(store.list(), vec!["home".to_string(), "work".to_string()]);
    let store = ProfileStore::from_parts(entries.clone(), Some("gone".to_string()));
    assert_eq!(store.active, None);
    let store = ProfileStore::from_parts(entries, None);
    assert_eq!(store.active, None);
}

#[test]
fn not_found_profile_and_missing_config_texts() {
    let mut store = ProfileStore::default();
    let err = store.set_active("ghost").unwrap_err();
    assert_eq!(err.display_text(), "Not found: Profile #ghost");
    assert_eq!(err.hint(), Some("Use `rdm profile list` to see available profiles."));
    let err = load_config(None, None, None, None, &store).unwrap_err();
    assert_eq!(err.display_text(), "Configuration error: No Redmine credentials configured");
    assert_eq!(
        err.hint(),
        Some("Set REDMINE_URL and REDMINE_API_KEY environment variables, or use `rdm profile add` to create a profile.")
    );
    assert_eq!(err.exit_code().value(), 3);
}
