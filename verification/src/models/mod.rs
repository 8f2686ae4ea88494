//! Conversations, messages, tool definitions and responses.

pub mod conversation;
pub mod response;
pub mod tool;

pub use conversation::{Conversation, ConversationV, Message, MessageRole, MessageV};
pub use response::{ContentBlock, ContentBlockV, LlmResponse, LlmResponseV};
pub use tool::{ToolDefinition, ToolDefinitionV};
