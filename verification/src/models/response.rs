//! LLM response types.

use vstd::prelude::*;
use vstd::string::StringExecFns;

verus! {

/// A block of content in an LLM response.
#[derive(Clone, Debug, PartialEq, Eq)]
pub enum ContentBlock {
    /// Plain text output.
    Text {
        /// The text content.
        text: String,
    },
    /// A tool call requested by the model.
    ToolCall {
        /// Unique identifier for this tool call.
        id: String,
        /// The function name to invoke.
        name: String,
        /// JSON-encoded function arguments.
        arguments: String,
    },
}

/// The model of a [`ContentBlock`].
pub enum ContentBlockV {
    Text { text: Seq<char> },
    ToolCall { id: Seq<char>, name: Seq<char>, arguments: Seq<char> },
}

impl View for ContentBlock {
    type V = ContentBlockV;

    open spec fn view(&self) -> ContentBlockV {
        match self {
            ContentBlock::Text { text } => ContentBlockV::Text { text: text@ },
            ContentBlock::ToolCall { id, name, arguments } => ContentBlockV::ToolCall {
                id: id@,
                name: name@,
                arguments: arguments@,
            },
        }
    }
}

/// The models of a sequence of content blocks.
pub open spec fn blocks_view(s: Seq<ContentBlock>) -> Seq<ContentBlockV> {
    s.map_values(|b: ContentBlock| b@)
}

impl ContentBlock {
    /// Creates a text content block.
    pub fn text(text: &str) -> (b: ContentBlock)
        ensures
            b@ == (ContentBlockV::Text { text: text@ }),
    {
        ContentBlock::Text { text: String::from_str(text) }
    }

    /// Creates a tool call content block.
    pub fn tool_call(id: &str, name: &str, arguments: &str) -> (b: ContentBlock)
        ensures
            b@ == (ContentBlockV::ToolCall { id: id@, name: name@, arguments: arguments@ }),
    {
        ContentBlock::ToolCall {
            id: String::from_str(id),
            name: String::from_str(name),
            arguments: String::from_str(arguments),
        }
    }

    /// Returns the text content if this is a `Text` block.
    pub fn as_text(&self) -> (r: Option<&str>)
        ensures
            match self@ {
                ContentBlockV::Text { text } => r matches Some(t) && t@ == text,
                ContentBlockV::ToolCall { .. } => r is None,
            },
    {
        match self {
            ContentBlock::Text { text } => Some(text.as_str()),
            _ => None,
        }
    }
}

/// The concatenation of the text of every text block, in order.
pub open spec fn text_of(blocks: Seq<ContentBlockV>) -> Seq<char>
    decreases blocks.len(),
{
    if blocks.len() == 0 {
        Seq::empty()
    } else {
        text_of(blocks.drop_last()) + match blocks.last() {
            ContentBlockV::Text { text } => text,
            ContentBlockV::ToolCall { .. } => Seq::empty(),
        }
    }
}

/// The full response from an LLM provider.
#[derive(Clone, Debug)]
pub struct LlmResponse {
    /// Ordered content blocks (text, tool calls, etc.).
    pub content: Vec<ContentBlock>,
    /// Number of input tokens consumed, if reported by the provider.
    pub input_tokens: Option<u32>,
    /// Number of output tokens generated, if reported by the provider.
    pub output_tokens: Option<u32>,
    /// The model identifier returned by the provider.
    pub model: String,
}

/// The model of an [`LlmResponse`].
pub struct LlmResponseV {
    pub content: Seq<ContentBlockV>,
    pub input_tokens: Option<u32>,
    pub output_tokens: Option<u32>,
    pub model: Seq<char>,
}

impl View for LlmResponse {
    type V = LlmResponseV;

    open spec fn view(&self) -> LlmResponseV {
        LlmResponseV {
            content: blocks_view(self.content@),
            input_tokens: self.input_tokens,
            output_tokens: self.output_tokens,
            model: self.model@,
        }
    }
}

impl LlmResponse {
    /// Concatenates all text blocks into a single string.
    pub fn text_only(&self) -> (r: String)
        ensures
            r@ == text_of(self@.content),
    {
        let mut r = String::new();
        let mut i: usize = 0;
        while i < self.content.len()
            invariant
                i <= self.content@.len(),
                r@ == text_of(blocks_view(self.content@.subrange(0, i as int))),
            decreases self.content@.len() - i,
        {
            let ghost before = blocks_view(self.content@.subrange(0, i as int));
            match self.content[i].as_text() {
                Some(t) => r.append(t),
                None => {},
            }
            proof {
                let after = blocks_view(self.content@.subrange(0, i + 1));
                assert(after.drop_last() =~= before);
                assert(after.last() == self.content@[i as int]@);
            }
            i = i + 1;
        }
        assert(self.content@.subrange(0, self.content@.len() as int) =~= self.content@);
        r
    }

    /// Whether any block is a tool call.
    pub fn has_tool_calls(&self) -> (r: bool)
        ensures
            r == exists|i: int|
                0 <= i < self@.content.len() && #[trigger] self@.content[i] is ToolCall,
    {
        let mut i: usize = 0;
        while i < self.content.len()
            invariant
                i <= self.content@.len(),
                forall|k: int| 0 <= k < i ==> !(#[trigger] self@.content[k] is ToolCall),
            decreases self.content@.len() - i,
        {
            match &self.content[i] {
                ContentBlock::ToolCall { .. } => {
                    assert(self@.content[i as int] is ToolCall);
                    return true;
                },
                _ => {},
            }
            i = i + 1;
        }
        false
    }
}

} // verus!
