//! The local model server's reply shapes.

use vstd::prelude::*;
use crate::model::ToolCall;

verus! {

/// A local server's reply: a message, or the server's own error.
pub enum OllamaChatResponse {
    Success(OllamaChatSuccessResponse),
    Error { error: String },
}

pub struct OllamaChatSuccessResponse {
    pub message: OllamaChatMessage,
}

pub struct OllamaChatMessage {
    pub role: String,
    pub content: String,
    pub tool_calls: Option<Vec<ToolCall>>,
}

} // verus!
