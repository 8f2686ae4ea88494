//! Conversation and message types.

use vstd::prelude::*;
use vstd::string::StringExecFns;

use crate::models::tool::{tools_view, ToolDefinition, ToolDefinitionV};

verus! {

/// The role of a message sender.
#[derive(Clone, Copy, Debug, PartialEq, Eq, Structural)]
pub enum MessageRole {
    /// System instructions that set context for the assistant.
    System,
    /// User input.
    User,
    /// Assistant response.
    Assistant,
    /// Tool execution result.
    Tool,
}

/// The lowercase name of a role, as the configuration and the wire formats write it.
pub open spec fn role_name(r: MessageRole) -> Seq<char> {
    match r {
        MessageRole::System => "system"@,
        MessageRole::User => "user"@,
        MessageRole::Assistant => "assistant"@,
        MessageRole::Tool => "tool"@,
    }
}

impl MessageRole {
    /// The lowercase name of the role (`system`, `user`, `assistant`, `tool`).
    pub fn as_str(&self) -> (r: &'static str)
        ensures
            r@ == role_name(*self),
    {
        match self {
            MessageRole::System => "system",
            MessageRole::User => "user",
            MessageRole::Assistant => "assistant",
            MessageRole::Tool => "tool",
        }
    }
}

/// A single message in a conversation.
#[derive(Clone, Debug)]
pub struct Message {
    /// The sender's role.
    pub role: MessageRole,
    /// Text content of the message.
    pub content: String,
    /// Associates a tool result with its originating tool call. Only set when `role` is `Tool`.
    pub tool_call_id: Option<String>,
}

/// The model of a [`Message`].
pub struct MessageV {
    pub role: MessageRole,
    pub content: Seq<char>,
    pub tool_call_id: Option<Seq<char>>,
}

/// The model of an optional string.
pub open spec fn opt_str_view(o: Option<String>) -> Option<Seq<char>> {
    match o {
        Some(s) => Some(s@),
        None => None,
    }
}

impl View for Message {
    type V = MessageV;

    open spec fn view(&self) -> MessageV {
        MessageV {
            role: self.role,
            content: self.content@,
            tool_call_id: opt_str_view(self.tool_call_id),
        }
    }
}

impl Message {
    /// Creates a system message.
    pub fn system(content: &str) -> (m: Message)
        ensures
            m@ == (MessageV { role: MessageRole::System, content: content@, tool_call_id: None }),
    {
        Message { role: MessageRole::System, content: String::from_str(content), tool_call_id: None }
    }

    /// Creates a user message.
    pub fn user(content: &str) -> (m: Message)
        ensures
            m@ == (MessageV { role: MessageRole::User, content: content@, tool_call_id: None }),
    {
        Message { role: MessageRole::User, content: String::from_str(content), tool_call_id: None }
    }

    /// Creates an assistant message.
    pub fn assistant(content: &str) -> (m: Message)
        ensures
            m@ == (MessageV {
                role: MessageRole::Assistant,
                content: content@,
                tool_call_id: None,
            }),
    {
        Message {
            role: MessageRole::Assistant,
            content: String::from_str(content),
            tool_call_id: None,
        }
    }

    /// Creates a tool result message, associated with a tool call ID.
    pub fn tool(content: &str, tool_call_id: &str) -> (m: Message)
        ensures
            m@ == (MessageV {
                role: MessageRole::Tool,
                content: content@,
                tool_call_id: Some(tool_call_id@),
            }),
    {
        Message {
            role: MessageRole::Tool,
            content: String::from_str(content),
            tool_call_id: Some(String::from_str(tool_call_id)),
        }
    }
}

/// The models of a sequence of messages.
pub open spec fn messages_view(s: Seq<Message>) -> Seq<MessageV> {
    s.map_values(|m: Message| m@)
}

/// An ordered list of messages, optionally with tool definitions.
pub struct Conversation {
    /// The conversation messages.
    pub messages: Vec<Message>,
    /// Optional tool definitions to pass to the provider.
    pub tools: Option<Vec<ToolDefinition>>,
}

/// The model of a [`Conversation`].
pub struct ConversationV {
    pub messages: Seq<MessageV>,
    pub tools: Option<Seq<ToolDefinitionV>>,
}

impl View for Conversation {
    type V = ConversationV;

    open spec fn view(&self) -> ConversationV {
        ConversationV {
            messages: messages_view(self.messages@),
            tools: match self.tools {
                Some(t) => Some(tools_view(t@)),
                None => None,
            },
        }
    }
}

impl Conversation {
    /// Creates a new conversation from a list of messages.
    pub fn new(messages: Vec<Message>) -> (c: Conversation)
        ensures
            c@.messages == messages_view(messages@),
            c@.tools is None,
    {
        Conversation { messages, tools: None }
    }

    /// Attaches tool definitions to the conversation.
    pub fn with_tools(self, tools: Vec<ToolDefinition>) -> (c: Conversation)
        ensures
            c@.messages == self@.messages,
            c@.tools == Some(tools_view(tools@)),
    {
        Conversation { messages: self.messages, tools: Some(tools) }
    }

    /// Convenience constructor for a single-user-prompt conversation.
    pub fn single_user_prompt(prompt: &str) -> (c: Conversation)
        ensures
            c@.messages == seq![
                MessageV { role: MessageRole::User, content: prompt@, tool_call_id: None },
            ],
            c@.tools is None,
    {
        let mut messages: Vec<Message> = Vec::new();
        messages.push(Message::user(prompt));
        let c = Conversation { messages, tools: None };
        assert(c@.messages =~= seq![
            MessageV { role: MessageRole::User, content: prompt@, tool_call_id: None },
        ]);
        c
    }
}

} // verus!
