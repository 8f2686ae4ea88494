use llm_cascade::config::{
    default_config_path, default_db_path, default_failure_dir, expand_tilde, join_path, AppConfig,
    DatabaseConfig, FailureConfig, ProviderConfig, ProviderType,
};
use llm_cascade::named_map::NamedMap;
use llm_cascade::persistence::{failed_file_name, failed_path};
use llm_cascade::secrets::{mask_is_safe, mask_key, select_api_key};

#[test]
fn tilde_expands_to_home_when_known() {
    assert_eq!(expand_tilde("~/data/db.sqlite", Some("/home/ann")), "/home/ann/data/db.sqlite");
    assert_eq!(expand_tilde("~/x", Some("/root/")), "/root/x");
    assert_eq!(expand_tilde("~/x", None), "~/x");
    assert_eq!(expand_tilde("/abs/path", Some("/home/ann")), "/abs/path");
    assert_eq!(expand_tilde("~user/x", Some("/home/ann")), "~user/x");
    assert_eq!(expand_tilde("~", Some("/home/ann")), "~");
}

#[test]
fn join_follows_unix_path_rules() {
    assert_eq!(join_path("/a", "b"), "/a/b");
    assert_eq!(join_path("/a/", "b"), "/a/b");
    assert_eq!(join_path("", "b"), "b");
    assert_eq!(join_path("/a", "/etc"), "/etc");
    assert_eq!(join_path("/a", ""), "/a/");
}

#[test]
fn default_paths() {
    assert_eq!(default_db_path(), "~/.local/share/llm-cascade/db.sqlite");
    assert_eq!(default_failure_dir(), "~/.local/share/llm-cascade/failed_prompts");
    assert_eq!(DatabaseConfig::default().path, "~/.local/share/llm-cascade/db.sqlite");
    assert_eq!(FailureConfig::default().dir, "~/.local/share/llm-cascade/failed_prompts");
    let c = AppConfig::empty();
    assert!(c.providers.is_empty());
    assert!(c.cascades.is_empty());
    assert_eq!(c.database.path, "~/.local/share/llm-cascade/db.sqlite");
}

#[test]
fn config_path_prefers_xdg_config_home() {
    assert_eq!(default_config_path(Some("/xdg"), Some("/home/ann")), "/xdg/llm-cascade/config.toml");
    assert_eq!(default_config_path(None, Some("/home/ann")), "/home/ann/.config/llm-cascade/config.toml");
    assert_eq!(default_config_path(None, None), "~/.config/llm-cascade/config.toml");
}

#[test]
fn named_map_replaces_values_and_keeps_first_position() {
    let mut m: NamedMap<u32> = NamedMap::new();
    assert!(m.is_empty());
    m.insert("b".to_string(), 1);
    m.insert("a".to_string(), 2);
    m.insert("b".to_string(), 3);
    assert_eq!(m.len(), 2);
    assert_eq!(m.get("b"), Some(&3));
    assert_eq!(m.get("a"), Some(&2));
    assert_eq!(m.get("c"), None);
    assert!(m.contains_key("a"));
    assert!(!m.contains_key("c"));
    let names: Vec<&str> = m.entries().iter().map(|(k, _)| k.as_str()).collect();
    assert_eq!(names, vec!["b", "a"]);
}

#[test]
fn provider_config_copy_keeps_every_field() {
    let c = ProviderConfig {
        provider_type: ProviderType::Gemini,
        api_key_service: Some("svc".to_string()),
        api_key_env: None,
        base_url: Some("http://x".to_string()),
    };
    let d = c.copy();
    assert_eq!(d.provider_type, ProviderType::Gemini);
    assert_eq!(d.api_key_service.as_deref(), Some("svc"));
    assert_eq!(d.api_key_env, None);
    assert_eq!(d.base_url.as_deref(), Some("http://x"));
}

#[test]
fn failed_conversations_are_named_by_cascade_and_time() {
    assert_eq!(failed_file_name("default", "20240102_030405"), "default_20240102_030405.json");
    assert_eq!(
        failed_path("~/.local/share/llm-cascade/failed_prompts", Some("/home/ann"), "/work", "default", "20240102_030405"),
        "/home/ann/.local/share/llm-cascade/failed_prompts/default_20240102_030405.json"
    );
    assert_eq!(failed_path("/var/f/", None, "/work", "c", "s"), "/var/f/c_s.json");
}

#[test]
fn failed_conversation_paths_are_absolute() {
    assert_eq!(failed_path("fp", Some("/home/u"), "/work", "c", "s"), "/work/fp/c_s.json");
    assert_eq!(failed_path("~/fp", None, "/work/", "c", "s"), "/work/~/fp/c_s.json");
    assert_eq!(failed_path("", None, "/", "c", "s"), "/c_s.json");
}

#[test]
fn short_keys_are_fully_masked() {
    assert_eq!(mask_key(""), "");
    assert_eq!(mask_key("abc"), "***");
    assert_eq!(mask_key("12345678"), "********");
}

#[test]
fn long_keys_show_their_ends() {
    assert_eq!(mask_key("sk-abcdefghijklmnop"), "sk-a...mnop");
    assert_eq!(mask_key("123456789"), "1234...6789");
}

#[test]
fn masking_is_refused_where_it_would_cut_a_character() {
    assert!(mask_is_safe("sk-abcdefghijklmnop"));
    assert!(mask_is_safe("éé"));
    assert!(!mask_is_safe("aééééé"));
    assert!(mask_is_safe("ééabcdéé"));
    assert_eq!(mask_key("ééabcdéé"), "éé...éé");
}

#[test]
fn keyring_key_wins_over_environment() {
    assert_eq!(select_api_key("s", "E", Some("k1".to_string()), Some("k2".to_string())), Ok("k1".to_string()));
    assert_eq!(select_api_key("s", "E", None, Some("k2".to_string())), Ok("k2".to_string()));
    assert_eq!(
        select_api_key("openai", "OPENAI_API_KEY", None, None),
        Err("API key not found: keyring service 'openai' and env var 'OPENAI_API_KEY' are both unavailable".to_string())
    );
}
