use llm_cascade::config::{ProviderConfig, ProviderType};
use llm_cascade::error::ProviderError;
use llm_cascade::json::Json;
use llm_cascade::models::conversation::{Conversation, Message};
use llm_cascade::models::response::ContentBlock;
use llm_cascade::models::tool::ToolDefinition;
use llm_cascade::providers::anthropic::AnthropicProvider;
use llm_cascade::providers::gemini::{call_id, GeminiProvider};
use llm_cascade::providers::ollama::OllamaProvider;
use llm_cascade::providers::openai::OpenAiProvider;
use llm_cascade::providers::{HttpRequest, Provider, ReplyBody};
use serde_json::Value;

fn from_value(v: &Value) -> Json {
    match v {
        Value::Null => Json::Null,
        Value::Bool(b) => Json::Bool(*b),
        Value::Number(n) => {
            if let Some(u) = n.as_u64() {
                Json::UInt(u)
            } else if let Some(i) = n.as_i64() {
                Json::NegInt(i)
            } else {
                Json::Float(n.to_string())
            }
        }
        Value::String(s) => Json::Str(s.clone()),
        Value::Array(items) => Json::Arr(items.iter().map(from_value).collect()),
        Value::Object(fields) => {
            Json::Obj(fields.iter().map(|(k, v)| (k.clone(), from_value(v))).collect())
        }
    }
}

fn json(text: &str) -> Json {
    from_value(&serde_json::from_str::<Value>(text).unwrap())
}

fn value(text: &str) -> Value {
    serde_json::from_str(text).unwrap()
}

fn body(r: &HttpRequest) -> Value {
    serde_json::from_str(&r.body_text()).unwrap()
}

fn headers(r: &HttpRequest) -> Vec<(&str, &str)> {
    r.headers.iter().map(|(k, v)| (k.as_str(), v.as_str())).collect()
}

fn weather_tool() -> ToolDefinition {
    ToolDefinition {
        name: "get_weather".to_string(),
        description: "Current weather".to_string(),
        parameters: json(r#"{"type":"object","properties":{"city":{"type":"string"}}}"#),
    }
}

fn mixed_conversation() -> Conversation {
    Conversation::new(vec![
        Message::system("be brief"),
        Message::system("use metric"),
        Message::user("hi"),
        Message::assistant("hello"),
        Message::tool("42", "call_1"),
    ])
}

#[test]
fn anthropic_request_moves_system_messages_and_tool_results() {
    let p = AnthropicProvider::new("sk-ant".to_string(), "opus-x".to_string(), Some("https://example.com/".to_string()));
    let r = p.build_request(&mixed_conversation());
    assert_eq!(r.url, "https://example.com/v1/messages");
    assert_eq!(
        headers(&r),
        vec![("x-api-key", "sk-ant"), ("anthropic-version", "2023-06-01"), ("content-type", "application/json")]
    );
    let expected = value(
        r#"{"model":"opus-x","max_tokens":4096,"system":"be brief\n\nuse metric",
            "messages":[{"role":"user","content":"hi"},{"role":"assistant","content":"hello"},
            {"role":"user","content":[{"type":"tool_result","tool_use_id":"call_1","content":"42"}]}]}"#,
    );
    assert_eq!(body(&r), expected);
}

#[test]
fn anthropic_request_lists_tools_with_input_schema() {
    let p = AnthropicProvider::new("k".to_string(), "m".to_string(), None);
    let c = Conversation::single_user_prompt("weather?").with_tools(vec![weather_tool()]);
    let r = p.build_request(&c);
    assert_eq!(r.url, "https://api.anthropic.com/v1/messages");
    let expected = value(
        r#"{"model":"m","max_tokens":4096,"messages":[{"role":"user","content":"weather?"}],
            "tools":[{"name":"get_weather","description":"Current weather",
            "input_schema":{"type":"object","properties":{"city":{"type":"string"}}}}]}"#,
    );
    assert_eq!(body(&r), expected);
}

#[test]
fn anthropic_tool_message_without_id_has_empty_tool_use_id() {
    let p = AnthropicProvider::new("k".to_string(), "m".to_string(), None);
    let mut m = Message::tool("out", "x");
    m.tool_call_id = None;
    let r = p.build_request(&Conversation::new(vec![m]));
    let expected = value(
        r#"{"model":"m","max_tokens":4096,
            "messages":[{"role":"user","content":[{"type":"tool_result","tool_use_id":"","content":"out"}]}]}"#,
    );
    assert_eq!(body(&r), expected);
}

#[test]
fn anthropic_response_reads_text_and_tool_use_blocks() {
    let p = AnthropicProvider::new("k".to_string(), "requested".to_string(), None);
    let data = json(
        r#"{"model":"opus-3","content":[{"type":"text","text":"Hello"},
            {"type":"tool_use","id":"tu_1","name":"calc","input":{"b":2,"a":1}},
            {"type":"thinking","text":"skip"}],
            "usage":{"input_tokens":10,"output_tokens":5}}"#,
    );
    let r = p.parse_response(&data);
    assert_eq!(
        r.content,
        vec![
            ContentBlock::Text { text: "Hello".to_string() },
            ContentBlock::ToolCall { id: "tu_1".to_string(), name: "calc".to_string(), arguments: r#"{"a":1,"b":2}"#.to_string() },
        ]
    );
    assert_eq!(r.input_tokens, Some(10));
    assert_eq!(r.output_tokens, Some(5));
    assert_eq!(r.model, "opus-3");
}

#[test]
fn anthropic_response_falls_back_to_requested_model() {
    let p = AnthropicProvider::new("k".to_string(), "requested".to_string(), None);
    let r = p.parse_response(&json(r#"{"content":"not a list"}"#));
    assert!(r.content.is_empty());
    assert_eq!(r.input_tokens, None);
    assert_eq!(r.output_tokens, None);
    assert_eq!(r.model, "requested");
}

#[test]
fn gemini_request_uses_last_system_message_and_model_role() {
    let p = GeminiProvider::new("g-key".to_string(), "gemini-pro".to_string(), None);
    let r = p.build_request(&mixed_conversation());
    assert_eq!(
        r.url,
        "https://generativelanguage.googleapis.com/v1beta/models/gemini-pro:generateContent?key=g-key"
    );
    assert_eq!(headers(&r), vec![("content-type", "application/json")]);
    let expected = value(
        r#"{"contents":[{"role":"user","parts":[{"text":"hi"}]},{"role":"model","parts":[{"text":"hello"}]},
            {"role":"function","parts":[{"functionResponse":{"name":"call_1","response":{"content":"42"}}}]}],
            "systemInstruction":{"parts":[{"text":"use metric"}]}}"#,
    );
    assert_eq!(body(&r), expected);
}

#[test]
fn gemini_request_wraps_tools_in_function_declarations() {
    let p = GeminiProvider::new("k".to_string(), "m".to_string(), Some("http://g//".to_string()));
    let mut tool_msg = Message::tool("r", "x");
    tool_msg.tool_call_id = None;
    let c = Conversation::new(vec![tool_msg]).with_tools(vec![weather_tool()]);
    let r = p.build_request(&c);
    assert_eq!(r.url, "http://g/v1beta/models/m:generateContent?key=k");
    let expected = value(
        r#"{"contents":[{"role":"function","parts":[{"functionResponse":{"name":"unknown","response":{"content":"r"}}}]}],
            "tools":[{"functionDeclarations":[{"name":"get_weather","description":"Current weather",
            "parameters":{"type":"object","properties":{"city":{"type":"string"}}}}]}]}"#,
    );
    assert_eq!(body(&r), expected);
}

#[test]
fn gemini_response_reads_first_candidate_parts() {
    let p = GeminiProvider::new("k".to_string(), "gemini-pro".to_string(), None);
    let data = json(
        r#"{"candidates":[{"content":{"parts":[{"text":"Hi"},{"functionCall":{"name":"f","args":{"x":1}}}]}},
            {"content":{"parts":[{"text":"ignored"}]}}],
            "usageMetadata":{"promptTokenCount":3,"candidatesTokenCount":4}}"#,
    );
    let r = p.parse_response(&data);
    assert_eq!(
        r.content,
        vec![
            ContentBlock::Text { text: "Hi".to_string() },
            ContentBlock::ToolCall { id: "call_27".to_string(), name: "f".to_string(), arguments: r#"{"x":1}"#.to_string() },
        ]
    );
    assert_eq!(r.input_tokens, Some(3));
    assert_eq!(r.output_tokens, Some(4));
    assert_eq!(r.model, "gemini-pro");
}

#[test]
fn gemini_call_ids_count_bytes_of_the_call_text() {
    assert_eq!(call_id(r#"{"args":{"x":1},"name":"f"}"#), "call_27");
    assert_eq!(call_id("é"), "call_2");
    assert_eq!(call_id(""), "call_0");
}

#[test]
fn gemini_function_call_set_to_null_still_counts_as_a_call() {
    let p = GeminiProvider::new("k".to_string(), "m".to_string(), None);
    let r = p.parse_response(&json(r#"{"candidates":[{"content":{"parts":[{"functionCall":null}]}}]}"#));
    assert_eq!(
        r.content,
        vec![ContentBlock::ToolCall { id: "call_4".to_string(), name: "".to_string(), arguments: "null".to_string() }]
    );
}

#[test]
fn gemini_response_without_candidates_is_empty() {
    let p = GeminiProvider::new("k".to_string(), "m".to_string(), None);
    let r = p.parse_response(&json(r#"{"candidates":[]}"#));
    assert!(r.content.is_empty());
    assert_eq!(r.model, "m");
}

#[test]
fn ollama_request_keeps_all_roles_and_tool_call_ids() {
    let p = OllamaProvider::new("llama3".to_string(), None);
    let r = p.build_request(&mixed_conversation());
    assert_eq!(r.url, "http://localhost:11434/api/chat");
    assert_eq!(headers(&r), vec![("content-type", "application/json")]);
    let expected = value(
        r#"{"model":"llama3","stream":false,"messages":[
            {"role":"system","content":"be brief"},{"role":"system","content":"use metric"},
            {"role":"user","content":"hi"},{"role":"assistant","content":"hello"},
            {"role":"tool","content":"42","tool_call_id":"call_1"}]}"#,
    );
    assert_eq!(body(&r), expected);
}

#[test]
fn ollama_request_lists_tools_as_functions() {
    let p = OllamaProvider::new("m".to_string(), Some("http://box:1/".to_string()));
    let c = Conversation::single_user_prompt("q").with_tools(vec![weather_tool()]);
    let r = p.build_request(&c);
    assert_eq!(r.url, "http://box:1/api/chat");
    let expected = value(
        r#"{"model":"m","stream":false,"messages":[{"role":"user","content":"q"}],
            "tools":[{"type":"function","function":{"name":"get_weather","description":"Current weather",
            "parameters":{"type":"object","properties":{"city":{"type":"string"}}}}}]}"#,
    );
    assert_eq!(body(&r), expected);
}

#[test]
fn ollama_response_skips_empty_text_and_reads_tool_calls() {
    let p = OllamaProvider::new("llama3".to_string(), None);
    let data = json(
        r#"{"message":{"content":"","tool_calls":[{"function":{"name":"f","arguments":{"a":1}}}]},
            "eval_count":7,"prompt_eval_count":3}"#,
    );
    let r = p.parse_response(&data);
    assert_eq!(
        r.content,
        vec![ContentBlock::ToolCall { id: "".to_string(), name: "f".to_string(), arguments: r#"{"a":1}"#.to_string() }]
    );
    assert_eq!(r.input_tokens, Some(3));
    assert_eq!(r.output_tokens, Some(7));
    assert_eq!(r.model, "llama3");
}

#[test]
fn openai_request_sends_bearer_token_and_messages() {
    let p = OpenAiProvider::new("sk-1".to_string(), "gpt-4o".to_string(), None);
    let c = Conversation::new(vec![Message::system("s"), Message::tool("42", "call_9")]).with_tools(vec![weather_tool()]);
    let r = p.build_request(&c);
    assert_eq!(r.url, "https://api.openai.com/v1/chat/completions");
    assert_eq!(headers(&r), vec![("authorization", "Bearer sk-1"), ("content-type", "application/json")]);
    let expected = value(
        r#"{"model":"gpt-4o","messages":[{"role":"system","content":"s"},
            {"role":"tool","content":"42","tool_call_id":"call_9"}],
            "tools":[{"type":"function","function":{"name":"get_weather","description":"Current weather",
            "parameters":{"type":"object","properties":{"city":{"type":"string"}}}}}]}"#,
    );
    assert_eq!(body(&r), expected);
}

#[test]
fn openai_response_reads_first_choice() {
    let p = OpenAiProvider::new("k".to_string(), "gpt-4o".to_string(), None);
    let data = json(
        r#"{"model":"gpt-4o-2024","choices":[{"message":{"content":"Done","tool_calls":[
            {"id":"c1","function":{"name":"f","arguments":"{\"q\": 1}"}}]}}],
            "usage":{"prompt_tokens":12,"completion_tokens":2}}"#,
    );
    let r = p.parse_response(&data);
    assert_eq!(
        r.content,
        vec![
            ContentBlock::Text { text: "Done".to_string() },
            ContentBlock::ToolCall { id: "c1".to_string(), name: "f".to_string(), arguments: "{\"q\": 1}".to_string() },
        ]
    );
    assert_eq!(r.input_tokens, Some(12));
    assert_eq!(r.output_tokens, Some(2));
    assert_eq!(r.model, "gpt-4o-2024");
}

#[test]
fn token_counts_are_cut_to_32_bits() {
    let p = OllamaProvider::new("m".to_string(), None);
    let r = p.parse_response(&json(r#"{"message":{"content":"x"},"eval_count":4294967301}"#));
    assert_eq!(r.output_tokens, Some(5));
    assert_eq!(r.content, vec![ContentBlock::Text { text: "x".to_string() }]);
}

fn openai_config() -> ProviderConfig {
    ProviderConfig { provider_type: ProviderType::Openai, api_key_service: None, api_key_env: None, base_url: None }
}

#[test]
fn provider_from_config_names_its_entry() {
    let p = Provider::from_config(&openai_config(), "gpt-4o".to_string(), "k".to_string());
    assert_eq!(p.provider_name(), "openai");
    assert_eq!(p.model_name(), "gpt-4o");
    assert_eq!(p.entry_key(), "openai/gpt-4o");
    let cfg = ProviderConfig { provider_type: ProviderType::Ollama, api_key_service: None, api_key_env: None, base_url: Some("http://h".to_string()) };
    let o = Provider::from_config(&cfg, "llama3".to_string(), String::new());
    assert_eq!(o.entry_key(), "ollama/llama3");
    assert_eq!(o.build_request(&Conversation::single_user_prompt("x")).url, "http://h/api/chat");
}

#[test]
fn read_reply_turns_failed_status_into_http_error() {
    let p = Provider::from_config(&openai_config(), "gpt-4o".to_string(), "k".to_string());
    match p.read_reply(429, Some("12"), ReplyBody::Text("slow down".to_string())) {
        Err(ProviderError::Http { status, body, retry_after }) => {
            assert_eq!(status, 429);
            assert_eq!(body, "slow down");
            assert_eq!(retry_after, Some(12));
        }
        _ => panic!("expected an HTTP error"),
    }
    match p.read_reply(503, Some("soon"), ReplyBody::Text(String::new())) {
        Err(ProviderError::Http { status, retry_after, .. }) => {
            assert_eq!(status, 503);
            assert_eq!(retry_after, None);
        }
        _ => panic!("expected an HTTP error"),
    }
}

#[test]
fn read_reply_reports_unreadable_bodies_and_parses_good_ones() {
    let p = Provider::from_config(&openai_config(), "gpt-4o".to_string(), "k".to_string());
    match p.read_reply(200, None, ReplyBody::Json(Err("expected value".to_string()))) {
        Err(ProviderError::Parse(m)) => assert_eq!(m, "expected value"),
        _ => panic!("expected a parse error"),
    }
    let ok = p.read_reply(200, None, ReplyBody::Json(Ok(json(r#"{"choices":[{"message":{"content":"yo"}}]}"#))));
    let r = ok.ok().unwrap();
    assert_eq!(r.text_only(), "yo");
    assert_eq!(r.model, "gpt-4o");
}
