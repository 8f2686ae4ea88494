use llm_cascade::cascade::{
    backoff_for_count, backoff_secs, cooldown_level, cooldown_plan, key_source, retry_after_secs,
    CascadeAction, CascadeRun, CooldownPlan, Phase, BASE_COOLDOWN_SECS, MAX_COOLDOWN_SECS,
};
use llm_cascade::config::{AppConfig, CascadeConfig, CascadeEntry, ProviderConfig, ProviderType};
use llm_cascade::error::{CascadeError, ProviderError};
use llm_cascade::models::response::{ContentBlock, LlmResponse};

fn cfg(t: ProviderType) -> ProviderConfig {
    ProviderConfig { provider_type: t, api_key_service: None, api_key_env: None, base_url: None }
}

fn entry(provider: &str, model: &str) -> CascadeEntry {
    CascadeEntry { provider: provider.to_string(), model: model.to_string() }
}

fn config() -> AppConfig {
    let mut c = AppConfig::empty();
    c.providers.insert("openai".to_string(), cfg(ProviderType::Openai));
    c.providers.insert("local".to_string(), cfg(ProviderType::Ollama));
    c.cascades.insert(
        "default".to_string(),
        CascadeConfig {
            entries: vec![
                entry("openai", "gpt-4o"),
                entry("missing", "m"),
                entry("local", "llama3"),
                entry("openai", "gpt-4o-mini"),
            ],
        },
    );
    c.cascades.insert("empty".to_string(), CascadeConfig { entries: vec![] });
    c
}

fn response(text: &str) -> LlmResponse {
    LlmResponse {
        content: vec![ContentBlock::Text { text: text.to_string() }],
        input_tokens: Some(1),
        output_tokens: Some(2),
        model: "m".to_string(),
    }
}

#[test]
fn backoff_doubles_from_thirty_seconds_up_to_an_hour() {
    assert_eq!(BASE_COOLDOWN_SECS, 30);
    assert_eq!(MAX_COOLDOWN_SECS, 3600);
    assert_eq!(backoff_secs(0), 30);
    assert_eq!(backoff_secs(1), 60);
    assert_eq!(backoff_secs(2), 120);
    assert_eq!(backoff_secs(6), 1920);
    assert_eq!(backoff_secs(7), 3600);
    assert_eq!(backoff_secs(40), 3600);
    assert_eq!(backoff_secs(u32::MAX), 3600);
}

#[test]
fn cooldown_level_is_one_less_than_the_failure_count() {
    assert_eq!(cooldown_level(-3), 0);
    assert_eq!(cooldown_level(0), 0);
    assert_eq!(cooldown_level(1), 0);
    assert_eq!(cooldown_level(2), 1);
    assert_eq!(cooldown_level(9), 8);
    assert_eq!(cooldown_level(1i64 << 32), 0);
    assert_eq!(cooldown_level((1i64 << 32) + 3), 2);
    assert_eq!(backoff_for_count(0), 30);
    assert_eq!(backoff_for_count(3), 120);
    assert_eq!(backoff_for_count(100), 3600);
}

#[test]
fn rate_limited_replies_with_retry_after_set_the_cooldown() {
    let e = ProviderError::Http { status: 429, body: String::new(), retry_after: Some(17) };
    assert_eq!(cooldown_plan(&e), CooldownPlan::RetryAfter(17));
    let e = ProviderError::Http { status: 429, body: String::new(), retry_after: None };
    assert_eq!(cooldown_plan(&e), CooldownPlan::Backoff);
    let e = ProviderError::Http { status: 503, body: String::new(), retry_after: Some(17) };
    assert_eq!(cooldown_plan(&e), CooldownPlan::Backoff);
    assert_eq!(cooldown_plan(&ProviderError::Request("dns".to_string())), CooldownPlan::Backoff);
    assert_eq!(retry_after_secs(17), 17);
}

#[test]
fn key_sources_default_to_provider_name_and_usual_variable() {
    let (service, var) = key_source("openai", &cfg(ProviderType::Openai)).unwrap();
    assert_eq!((service.as_str(), var.as_str()), ("openai", "OPENAI_API_KEY"));
    let (_, var) = key_source("anth", &cfg(ProviderType::Anthropic)).unwrap();
    assert_eq!(var, "ANTHROPIC_API_KEY");
    let (_, var) = key_source("g", &cfg(ProviderType::Gemini)).unwrap();
    assert_eq!(var, "GOOGLE_API_KEY");
    let custom = ProviderConfig {
        provider_type: ProviderType::Openai,
        api_key_service: Some("groq".to_string()),
        api_key_env: Some("GROQ_API_KEY".to_string()),
        base_url: None,
    };
    let (service, var) = key_source("fast", &custom).unwrap();
    assert_eq!((service.as_str(), var.as_str()), ("groq", "GROQ_API_KEY"));
    assert!(key_source("local", &cfg(ProviderType::Ollama)).is_none());
}

#[test]
fn start_fails_for_unknown_or_empty_cascades() {
    let c = config();
    match CascadeRun::start("nope", &c) {
        Err(m) => assert_eq!(m, "Cascade 'nope' not found in configuration"),
        Ok(_) => panic!("expected an error"),
    }
    match CascadeRun::start("empty", &c) {
        Err(m) => assert_eq!(m, "Cascade 'empty' has no entries"),
        Ok(_) => panic!("expected an error"),
    }
}

#[test]
fn a_run_with_every_entry_failing_reports_each_one() {
    let c = config();
    let mut run = CascadeRun::start("default", &c).ok().unwrap();
    assert_eq!(run.phase(), Phase::Ready);

    match run.advance() {
        CascadeAction::CheckCooldown { entry_key } => assert_eq!(entry_key, "openai/gpt-4o"),
        _ => panic!("expected a cooldown check"),
    }
    // gpt-4o is on cooldown; "missing" is not configured; local is checked next.
    match run.on_cooldown(true) {
        CascadeAction::CheckCooldown { entry_key } => assert_eq!(entry_key, "local/llama3"),
        _ => panic!("expected a cooldown check"),
    }
    match run.on_cooldown(false) {
        CascadeAction::Send { entry_key, provider } => {
            assert_eq!(entry_key, "local/llama3");
            assert_eq!(provider.entry_key(), "ollama/llama3");
        }
        _ => panic!("expected a send"),
    }
    assert_eq!(run.phase(), Phase::AwaitingReply);
    let err = ProviderError::Http { status: 500, body: "boom".to_string(), retry_after: None };
    match run.on_reply(Err(err)) {
        CascadeAction::Failed { entry_key, http_status, cooldown } => {
            assert_eq!(entry_key, "local/llama3");
            assert_eq!(http_status, Some(500));
            assert_eq!(cooldown, CooldownPlan::Backoff);
        }
        _ => panic!("expected a failure"),
    }
    match run.advance() {
        CascadeAction::CheckCooldown { entry_key } => assert_eq!(entry_key, "openai/gpt-4o-mini"),
        _ => panic!("expected a cooldown check"),
    }
    match run.on_cooldown(false) {
        CascadeAction::ResolveKey { entry_key, service, env_var } => {
            assert_eq!(entry_key, "openai/gpt-4o-mini");
            assert_eq!(service, "openai");
            assert_eq!(env_var, "OPENAI_API_KEY");
        }
        _ => panic!("expected a key lookup"),
    }
    match run.on_api_key(Err("no key".to_string())) {
        CascadeAction::Exhausted { message } => assert_eq!(
            message,
            "Skipped (on cooldown): openai/gpt-4o\nFailed entries: missing/m: provider not found; \
             local/llama3: HTTP 500: boom; openai/gpt-4o-mini: API key not configured for provider 'openai'"
        ),
        _ => panic!("expected the run to be exhausted"),
    }
    assert_eq!(run.phase(), Phase::Finished);
}

#[test]
fn the_first_entry_that_answers_wins() {
    let c = config();
    let mut run = CascadeRun::start("default", &c).ok().unwrap();
    run.advance();
    match run.on_cooldown(false) {
        CascadeAction::ResolveKey { service, .. } => assert_eq!(service, "openai"),
        _ => panic!("expected a key lookup"),
    }
    match run.on_api_key(Ok("sk-test".to_string())) {
        CascadeAction::Send { entry_key, provider } => {
            assert_eq!(entry_key, "openai/gpt-4o");
            let req = provider.build_request(&llm_cascade::models::conversation::Conversation::single_user_prompt("hi"));
            assert_eq!(req.headers[0].1, "Bearer sk-test");
        }
        _ => panic!("expected a send"),
    }
    match run.on_reply(Ok(response("hello"))) {
        CascadeAction::Succeeded { entry_key, response } => {
            assert_eq!(entry_key, "openai/gpt-4o");
            assert_eq!(response.text_only(), "hello");
        }
        _ => panic!("expected success"),
    }
    assert_eq!(run.phase(), Phase::Finished);
}

#[test]
fn rate_limited_failure_carries_the_retry_after_cooldown() {
    let c = config();
    let mut run = CascadeRun::start("default", &c).ok().unwrap();
    run.advance();
    run.on_cooldown(false);
    run.on_api_key(Ok("k".to_string()));
    let err = ProviderError::Http { status: 429, body: "later".to_string(), retry_after: Some(90) };
    match run.on_reply(Err(err)) {
        CascadeAction::Failed { http_status, cooldown, .. } => {
            assert_eq!(http_status, Some(429));
            assert_eq!(cooldown, CooldownPlan::RetryAfter(90));
        }
        _ => panic!("expected a failure"),
    }
    assert_eq!(run.phase(), Phase::Ready);
}

#[test]
fn a_run_with_every_entry_skipped_has_no_failed_entries() {
    let mut c = AppConfig::empty();
    c.providers.insert("local".to_string(), cfg(ProviderType::Ollama));
    c.cascades.insert("one".to_string(), CascadeConfig { entries: vec![entry("local", "a")] });
    let mut run = CascadeRun::start("one", &c).ok().unwrap();
    run.advance();
    match run.on_cooldown(true) {
        CascadeAction::Exhausted { message } => {
            assert_eq!(message, "Skipped (on cooldown): local/a\nFailed entries: ")
        }
        _ => panic!("expected the run to be exhausted"),
    }
}

#[test]
fn a_run_without_configured_providers_fails_without_skips() {
    let mut c = AppConfig::empty();
    c.cascades.insert("one".to_string(), CascadeConfig { entries: vec![entry("x", "a"), entry("y", "b")] });
    let mut run = CascadeRun::start("one", &c).ok().unwrap();
    match run.advance() {
        CascadeAction::Exhausted { message } => assert_eq!(
            message,
            "Failed entries: x/a: provider not found; y/b: provider not found"
        ),
        _ => panic!("expected the run to be exhausted"),
    }
}

#[test]
fn cascade_error_text_names_the_cascade_and_the_saved_prompt() {
    let e = CascadeError {
        cascade_name: "default".to_string(),
        message: "Failed entries: a/b: HTTP 500: x".to_string(),
        failed_prompt_path: "/tmp/p.json".to_string(),
    };
    assert_eq!(
        e.to_text(),
        "All providers in cascade 'default' failed: Failed entries: a/b: HTTP 500: x\nFailed prompt persisted to: /tmp/p.json"
    );
}

#[test]
fn provider_error_texts_match_their_display() {
    assert_eq!(ProviderError::Http { status: 404, body: "nf".to_string(), retry_after: None }.to_text(), "HTTP 404: nf");
    assert_eq!(ProviderError::Request("timeout".to_string()).to_text(), "Request failed: timeout");
    assert_eq!(ProviderError::Parse("eof".to_string()).to_text(), "Response parse error: eof");
    assert_eq!(ProviderError::MissingApiKey("g".to_string()).to_text(), "API key not configured for provider 'g'");
    assert_eq!(ProviderError::Other("odd".to_string()).to_text(), "Provider error: odd");
    let e = ProviderError::Http { status: 429, body: String::new(), retry_after: Some(3) };
    assert_eq!(e.http_status(), Some(429));
    assert_eq!(e.retry_after_seconds(), Some(3));
    assert!(e.is_rate_limited());
    assert!(!ProviderError::Other("x".to_string()).is_rate_limited());
    assert_eq!(ProviderError::Other("x".to_string()).http_status(), None);
}
