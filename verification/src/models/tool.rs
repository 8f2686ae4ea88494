//! Tool definitions for function calling.

use vstd::prelude::*;

use crate::json::{Json, JsonV};

verus! {

/// Describes a tool (function) available for the model to call.
pub struct ToolDefinition {
    /// The function name.
    pub name: String,
    /// A description of what the function does.
    pub description: String,
    /// JSON Schema object describing the function parameters.
    pub parameters: Json,
}

/// The model of a [`ToolDefinition`].
pub struct ToolDefinitionV {
    pub name: Seq<char>,
    pub description: Seq<char>,
    pub parameters: JsonV,
}

impl View for ToolDefinition {
    type V = ToolDefinitionV;

    open spec fn view(&self) -> ToolDefinitionV {
        ToolDefinitionV {
            name: self.name@,
            description: self.description@,
            parameters: self.parameters@,
        }
    }
}

/// The models of a sequence of tool definitions.
pub open spec fn tools_view(s: Seq<ToolDefinition>) -> Seq<ToolDefinitionV> {
    s.map_values(|t: ToolDefinition| t@)
}

} // verus!
