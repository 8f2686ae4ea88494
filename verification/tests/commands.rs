use llm_cascade::cli::{conversation_source, ConversationSource, RunArgs};
use llm_cascade::config::{AppConfig, CascadeConfig, ProviderConfig, ProviderType};
use llm_cascade::keys::{
    check_entered_key, key_get_report, key_service_for, key_status, key_table, pad,
    provider_config_for, providers_needing_keys, repeat_char, KeyGetReport, KeyStatusRow,
};
use llm_cascade::named_map::NamedMap;
use llm_cascade::order::{sort_strings, str_le};
use llm_cascade::setup::{
    cascade_entry_step, cascade_name_step, custom_env_var, custom_provider, custom_provider_name,
    has_keyring_providers, is_yes, preset, select_providers, split_char, CascadeNameStep, EntryStep,
};

fn with_key(service: &str, env: Option<&str>) -> ProviderConfig {
    ProviderConfig {
        provider_type: ProviderType::Openai,
        api_key_service: Some(service.to_string()),
        api_key_env: env.map(|e| e.to_string()),
        base_url: None,
    }
}

fn no_key() -> ProviderConfig {
    ProviderConfig { provider_type: ProviderType::Ollama, api_key_service: None, api_key_env: None, base_url: None }
}

fn shown(r: KeyGetReport) -> Result<String, String> {
    match r {
        KeyGetReport::Show(s) => Ok(s),
        KeyGetReport::Fail(s) => Err(s),
    }
}

#[test]
fn provider_lookup_names_a_missing_provider() {
    let mut c = AppConfig::empty();
    c.providers.insert("openai".to_string(), with_key("openai", None));
    assert!(provider_config_for(&c, "openai").is_ok());
    assert_eq!(provider_config_for(&c, "x").err().unwrap(), "Provider 'x' not found in config");
    assert_eq!(key_service_for("openai", &with_key("svc", None)), Ok("svc".to_string()));
    assert_eq!(
        key_service_for("local", &no_key()),
        Err("Provider 'local' does not use an API key (e.g. Ollama)".to_string())
    );
}

#[test]
fn entered_keys_must_not_be_blank() {
    assert_eq!(check_entered_key("sk-1"), Ok(()));
    assert_eq!(check_entered_key("  \t"), Err("API key cannot be empty".to_string()));
    assert_eq!(check_entered_key(""), Err("API key cannot be empty".to_string()));
}

#[test]
fn key_get_prefers_keyring_then_environment() {
    let cfg = with_key("openai", Some("OPENAI_API_KEY"));
    assert_eq!(shown(key_get_report("openai", &cfg, Some("sk-abcdefghijkl"), None, false)), Ok("sk-a...ijkl".to_string()));
    assert_eq!(shown(key_get_report("openai", &cfg, Some("sk-abcdefghijkl"), None, true)), Ok("sk-abcdefghijkl".to_string()));
    assert_eq!(
        shown(key_get_report("openai", &cfg, None, Some("short"), false)),
        Ok("(from env var OPENAI_API_KEY) *****".to_string())
    );
    assert_eq!(
        shown(key_get_report("openai", &cfg, None, None, false)),
        Err("No API key found for 'openai' in keyring or env var 'OPENAI_API_KEY'.".to_string())
    );
    assert_eq!(
        shown(key_get_report("openai", &with_key("openai", None), None, None, false)),
        Err("No API key found for 'openai' in keyring.".to_string())
    );
}

#[test]
fn key_status_columns() {
    let cfg = with_key("s", Some("E"));
    assert_eq!(key_status(&cfg, true, false), ("set".to_string(), "not set".to_string()));
    assert_eq!(key_status(&with_key("s", None), false, true), ("not set".to_string(), "n/a".to_string()));
    assert_eq!(key_status(&no_key(), true, true), ("n/a".to_string(), "n/a".to_string()));
}

#[test]
fn key_table_pads_columns_to_at_least_eight() {
    let rows = vec![
        KeyStatusRow { provider: "anthropic".to_string(), keyring: "set".to_string(), env: "not set".to_string() },
        KeyStatusRow { provider: "ollama".to_string(), keyring: "n/a".to_string(), env: "n/a".to_string() },
    ];
    let lines = key_table(&rows);
    assert_eq!(
        lines,
        vec![
            "PROVIDER   KEYRING   ENV VAR ".to_string(),
            "---------  --------  --------".to_string(),
            "anthropic  set       not set ".to_string(),
            "ollama     n/a       n/a     ".to_string(),
        ]
    );
    assert_eq!(key_table(&vec![]), vec!["PROVIDER  KEYRING   ENV VAR ".to_string(), "--------  --------  --------".to_string()]);
    assert_eq!(pad("ab", 4), "ab  ");
    assert_eq!(pad("abcdef", 4), "abcdef");
    assert_eq!(repeat_char('-', 3), "---");
}

#[test]
fn providers_needing_keys_are_sorted() {
    let mut c = AppConfig::empty();
    c.providers.insert("openai".to_string(), with_key("openai", None));
    c.providers.insert("ollama".to_string(), no_key());
    c.providers.insert("anthropic".to_string(), with_key("anthropic", None));
    assert_eq!(providers_needing_keys(&c), vec!["anthropic".to_string(), "openai".to_string()]);
    assert!(has_keyring_providers(&c.providers));
    let mut only_local: NamedMap<ProviderConfig> = NamedMap::new();
    only_local.insert("ollama".to_string(), no_key());
    assert!(!has_keyring_providers(&only_local));
}

#[test]
fn strings_sort_in_byte_order() {
    assert!(str_le("a", "b"));
    assert!(str_le("ab", "ab"));
    assert!(!str_le("b", "ab"));
    assert!(str_le("Z", "a"));
    let v = vec!["pear".to_string(), "apple".to_string(), "Zoo".to_string(), "apple".to_string()];
    assert_eq!(sort_strings(v), vec!["Zoo".to_string(), "apple".to_string(), "apple".to_string(), "pear".to_string()]);
}

#[test]
fn menu_choices_by_number_or_name() {
    let (n, c) = preset("4").unwrap();
    assert_eq!(n, "groq");
    assert_eq!(c.provider_type, ProviderType::Openai);
    assert_eq!(c.api_key_env.as_deref(), Some("GROQ_API_KEY"));
    assert_eq!(c.base_url.as_deref(), Some("https://api.groq.com/openai/v1"));
    let (n, c) = preset("ollama").unwrap();
    assert_eq!(n, "ollama");
    assert!(c.api_key_service.is_none());
    assert_eq!(c.base_url.as_deref(), Some("http://localhost:11434"));
    assert!(preset("6").is_none());
    assert!(preset(" 1").is_none());
}

#[test]
fn selection_line_picks_providers_and_reports_unknown_choices() {
    let mut p: NamedMap<ProviderConfig> = NamedMap::new();
    let s = select_providers(" 1, gemini,, x ,5 ", &mut p);
    assert!(s.done);
    assert_eq!(s.unknown, vec!["x".to_string()]);
    let names: Vec<&str> = p.entries().iter().map(|(k, _)| k.as_str()).collect();
    assert_eq!(names, vec!["openai", "gemini", "ollama"]);

    let mut q: NamedMap<ProviderConfig> = NamedMap::new();
    let s = select_providers("nope", &mut q);
    assert!(!s.done);
    assert_eq!(s.unknown, vec!["nope".to_string()]);
    assert!(q.is_empty());

    let s = select_providers("  all ", &mut q);
    assert!(s.done);
    assert_eq!(q.len(), 5);
    let s = select_providers("a", &mut NamedMap::new());
    assert!(s.done);
}

#[test]
fn split_keeps_empty_pieces() {
    assert_eq!(split_char("a,,b", ','), vec!["a".to_string(), "".to_string(), "b".to_string()]);
    assert_eq!(split_char("", ','), vec!["".to_string()]);
    assert_eq!(split_char("x,", ','), vec!["x".to_string(), "".to_string()]);
}

#[test]
fn answers_and_custom_providers() {
    assert!(is_yes(" Y "));
    assert!(is_yes("y"));
    assert!(!is_yes("yes"));
    assert!(!is_yes(""));
    assert_eq!(custom_env_var("my-llm"), "MY_LLM_API_KEY");
    let mut p: NamedMap<ProviderConfig> = NamedMap::new();
    p.insert("openai".to_string(), with_key("openai", None));
    assert_eq!(custom_provider_name("  local-ai ", &p), Ok("local-ai".to_string()));
    assert_eq!(custom_provider_name("openai", &p), Err("  Invalid or duplicate name.".to_string()));
    assert_eq!(custom_provider_name("   ", &p), Err("  Invalid or duplicate name.".to_string()));
    let c = custom_provider("local-ai", " http://x/v1 ").ok().unwrap();
    assert_eq!(c.provider_type, ProviderType::Openai);
    assert_eq!(c.api_key_service.as_deref(), Some("local-ai"));
    assert_eq!(c.api_key_env.as_deref(), Some("LOCAL_AI_API_KEY"));
    assert_eq!(c.base_url.as_deref(), Some("http://x/v1"));
    assert_eq!(custom_provider("x", " ").err().unwrap(), "  Base URL is required.");
}

#[test]
fn cascade_names_and_entries() {
    let mut cascades: NamedMap<CascadeConfig> = NamedMap::new();
    cascades.insert("fast".to_string(), CascadeConfig { entries: vec![] });
    assert!(matches!(cascade_name_step("  ", &cascades), CascadeNameStep::Finish));
    assert!(matches!(cascade_name_step(" fast", &cascades), CascadeNameStep::Duplicate(n) if n == "fast"));
    assert!(matches!(cascade_name_step("best ", &cascades), CascadeNameStep::New(n) if n == "best"));

    let mut providers: NamedMap<ProviderConfig> = NamedMap::new();
    providers.insert("openai".to_string(), with_key("openai", None));
    assert!(matches!(cascade_entry_step("", &providers), EntryStep::Finish));
    match cascade_entry_step(" openai : gpt-4o:latest ", &providers) {
        EntryStep::Added(e) => {
            assert_eq!(e.provider, "openai");
            assert_eq!(e.model, "gpt-4o:latest");
        }
        _ => panic!("expected an entry"),
    }
    match cascade_entry_step("openai gpt-4o", &providers) {
        EntryStep::Invalid(m) => assert_eq!(m, "    Format: provider:model (e.g. openai:gpt-4o)"),
        _ => panic!("expected a format error"),
    }
    match cascade_entry_step("groq:llama", &providers) {
        EntryStep::Invalid(m) => assert_eq!(m, "    Provider 'groq' not configured."),
        _ => panic!("expected an unknown provider"),
    }
}

#[test]
fn conversation_comes_from_file_or_prompt() {
    let args = RunArgs {
        cascade: "default".to_string(),
        prompt: Some("hi".to_string()),
        file: None,
        config: None,
    };
    assert!(matches!(conversation_source(&args), ConversationSource::Prompt(p) if p == "hi"));
    let args = RunArgs {
        cascade: "default".to_string(),
        prompt: Some("hi".to_string()),
        file: Some("conv.json".to_string()),
        config: None,
    };
    assert!(matches!(conversation_source(&args), ConversationSource::File(f) if f == "conv.json"));
    let args = RunArgs { cascade: "default".to_string(), prompt: None, file: None, config: None };
    assert!(matches!(conversation_source(&args), ConversationSource::Missing));
}
