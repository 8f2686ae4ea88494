use llm_cascade::config::ProviderType;
use llm_cascade::wizard::{Stream, Wizard};

fn answer(w: &mut Wizard, line: &str) -> Vec<(Stream, String)> {
    w.step(line)
}

#[test]
fn wizard_asks_until_a_provider_is_picked() {
    let mut w = Wizard::new();
    assert_eq!(w.prompt(), Some("Providers [1-5]: "));
    assert_eq!(answer(&mut w, "9, x"), vec![
        (Stream::Error, "Unknown option: '9'".to_string()),
        (Stream::Error, "Unknown option: 'x'".to_string()),
    ]);
    assert_eq!(w.prompt(), Some("Providers [1-5]: "));
    assert!(answer(&mut w, "1,5").is_empty());
    assert_eq!(w.prompt(), Some("Add a custom OpenAI-compatible provider? [y/N]: "));
}

#[test]
fn wizard_full_session() {
    let mut w = Wizard::new();
    answer(&mut w, "openai");
    assert!(answer(&mut w, "Y").is_empty());
    assert_eq!(w.prompt(), Some("  Provider name: "));
    assert_eq!(answer(&mut w, "openai"), vec![(Stream::Error, "  Invalid or duplicate name.".to_string())]);
    assert_eq!(w.prompt(), Some("Add a custom OpenAI-compatible provider? [y/N]: "));
    answer(&mut w, "y");
    assert!(answer(&mut w, " my-llm ").is_empty());
    assert_eq!(w.prompt(), Some("  Base URL (e.g. https://api.example.com/v1): "));
    assert_eq!(answer(&mut w, " "), vec![(Stream::Error, "  Base URL is required.".to_string())]);
    answer(&mut w, "y");
    answer(&mut w, "my-llm");
    assert_eq!(answer(&mut w, "http://x/v1"), vec![(Stream::Output, "  Added provider 'my-llm'.".to_string())]);
    assert_eq!(answer(&mut w, "n"), vec![
        (Stream::Output, "".to_string()),
        (Stream::Output, "Define cascades (ordered provider/model lists).".to_string()),
        (Stream::Output, "Leave cascade name empty to finish.".to_string()),
    ]);
    assert_eq!(w.prompt(), Some("Cascade name (or Enter to finish): "));
    assert_eq!(answer(&mut w, "fast"), vec![
        (Stream::Output, "  Add entries for cascade 'fast' (provider/model pairs).".to_string()),
        (Stream::Output, "  Available providers: openai, my-llm".to_string()),
    ]);
    assert_eq!(answer(&mut w, "groq:x"), vec![(Stream::Error, "    Provider 'groq' not configured.".to_string())]);
    assert_eq!(answer(&mut w, "openai"), vec![(Stream::Error, "    Format: provider:model (e.g. openai:gpt-4o)".to_string())]);
    assert_eq!(answer(&mut w, "openai : gpt-4o"), vec![(Stream::Output, "    Added: openai / gpt-4o".to_string())]);
    assert!(answer(&mut w, "").is_empty());
    assert_eq!(answer(&mut w, "fast"), vec![(Stream::Error, "  Cascade 'fast' already exists. Skipping.".to_string())]);
    answer(&mut w, "empty");
    assert_eq!(answer(&mut w, ""), vec![(Stream::Error, "  Cascade 'empty' has no entries. Skipping.".to_string())]);
    assert!(answer(&mut w, "").is_empty());
    assert_eq!(w.prompt(), None);
    assert!(!w.is_aborted());

    let c = w.finish();
    assert_eq!(c.providers.len(), 2);
    let custom = c.providers.get("my-llm").unwrap();
    assert_eq!(custom.provider_type, ProviderType::Openai);
    assert_eq!(custom.api_key_env.as_deref(), Some("MY_LLM_API_KEY"));
    assert_eq!(custom.base_url.as_deref(), Some("http://x/v1"));
    assert_eq!(c.cascades.len(), 1);
    let fast = c.cascades.get("fast").unwrap();
    assert_eq!(fast.entries.len(), 1);
    assert_eq!(fast.entries[0].model, "gpt-4o");
    assert!(c.cascades.get("empty").is_none());
    assert_eq!(c.database.path, "~/.local/share/llm-cascade/db.sqlite");
    assert_eq!(c.failure_persistence.dir, "~/.local/share/llm-cascade/failed_prompts");
}
