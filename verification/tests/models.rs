use llm_cascade::models::conversation::{Conversation, Message, MessageRole};
use llm_cascade::models::response::{ContentBlock, LlmResponse};

#[test]
fn message_constructors_set_role_and_content() {
    let s = Message::system("be brief");
    assert_eq!(s.role, MessageRole::System);
    assert_eq!(s.content, "be brief");
    assert_eq!(s.tool_call_id, None);
    let u = Message::user("hi");
    assert_eq!(u.role, MessageRole::User);
    assert_eq!(u.content, "hi");
    let a = Message::assistant("hello");
    assert_eq!(a.role, MessageRole::Assistant);
    assert_eq!(a.tool_call_id, None);
    let t = Message::tool("42", "call_1");
    assert_eq!(t.role, MessageRole::Tool);
    assert_eq!(t.content, "42");
    assert_eq!(t.tool_call_id, Some("call_1".to_string()));
}

#[test]
fn role_names_are_lowercase() {
    assert_eq!(MessageRole::System.as_str(), "system");
    assert_eq!(MessageRole::User.as_str(), "user");
    assert_eq!(MessageRole::Assistant.as_str(), "assistant");
    assert_eq!(MessageRole::Tool.as_str(), "tool");
}

#[test]
fn single_user_prompt_has_one_user_message() {
    let c = Conversation::single_user_prompt("What is 2 + 2?");
    assert_eq!(c.messages.len(), 1);
    assert_eq!(c.messages[0].role, MessageRole::User);
    assert_eq!(c.messages[0].content, "What is 2 + 2?");
    assert!(c.tools.is_none());
}

#[test]
fn with_tools_keeps_messages() {
    let c = Conversation::new(vec![Message::system("s"), Message::user("u")]).with_tools(vec![]);
    assert_eq!(c.messages.len(), 2);
    assert_eq!(c.tools.as_ref().map(|t| t.len()), Some(0));
}

#[test]
fn content_blocks_and_text() {
    let t = ContentBlock::text("abc");
    assert_eq!(t, ContentBlock::Text { text: "abc".to_string() });
    assert_eq!(t.as_text(), Some("abc"));
    let c = ContentBlock::tool_call("id1", "f", "{}");
    assert_eq!(
        c,
        ContentBlock::ToolCall { id: "id1".into(), name: "f".into(), arguments: "{}".into() }
    );
    assert_eq!(c.as_text(), None);
}

#[test]
fn text_only_concatenates_text_blocks_in_order() {
    let r = LlmResponse {
        content: vec![
            ContentBlock::text("Hello, "),
            ContentBlock::tool_call("1", "f", "{}"),
            ContentBlock::text("world"),
        ],
        input_tokens: Some(3),
        output_tokens: None,
        model: "m".into(),
    };
    assert_eq!(r.text_only(), "Hello, world");
    assert!(r.has_tool_calls());
    let plain = LlmResponse { content: vec![ContentBlock::text("x")], input_tokens: None, output_tokens: None, model: "m".into() };
    assert!(!plain.has_tool_calls());
    let empty = LlmResponse { content: vec![], input_tokens: None, output_tokens: None, model: "m".into() };
    assert_eq!(empty.text_only(), "");
}
