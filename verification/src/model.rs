//! The conversation as callers hand it to the gateway, and the events that
//! the gateway hands back, whichever backend answers.

use vstd::prelude::*;

use crate::json::Json;

verus! {

/// The profile under which requests to an enterprise backend are made.
#[derive(Clone, Debug, PartialEq)]
pub struct AuthProfile {
    pub arn: String,
    pub profile_name: String,
}

/// How a tool call ended.
#[derive(Clone, Copy, Debug, PartialEq, Eq, Structural)]
pub enum ToolResultStatus {
    Error,
    Success,
}

/// One block of what a tool returned: text, or a structured document.
#[derive(Debug, PartialEq)]
pub enum ToolResultContentBlock {
    Json(Json),
    Text(String),
}

/// The outcome of a tool call, reported under the identifier of the call.
#[derive(Debug, PartialEq)]
pub struct ToolResult {
    pub tool_use_id: String,
    pub content: Vec<ToolResultContentBlock>,
    pub status: ToolResultStatus,
}

/// The schema of a tool's input.
#[derive(Debug, PartialEq)]
pub struct ToolInputSchema {
    pub json: Option<Json>,
}

/// The declaration of a tool: its name, what it does, what it takes.
#[derive(Debug, PartialEq)]
pub struct ToolSpecification {
    pub name: String,
    pub description: String,
    pub input_schema: ToolInputSchema,
}

/// A tool that the assistant may call.
#[derive(Debug, PartialEq)]
pub enum Tool {
    ToolSpecification(ToolSpecification),
}

/// What goes with a user's turn besides its text.
#[derive(Debug, PartialEq)]
pub struct UserInputMessageContext {
    pub tool_results: Option<Vec<ToolResult>>,
    pub tools: Option<Vec<Tool>>,
}

/// A user's turn.
#[derive(Debug, PartialEq)]
pub struct UserInputMessage {
    pub content: String,
    pub user_input_message_context: Option<UserInputMessageContext>,
}

/// A call of a tool that the assistant asked for.
#[derive(Debug, PartialEq)]
pub struct ToolUse {
    pub tool_use_id: String,
    pub name: String,
    pub input: Json,
}

/// The assistant's turn.
#[derive(Debug, PartialEq)]
pub struct AssistantResponseMessage {
    pub message_id: Option<String>,
    pub content: String,
    pub tool_uses: Option<Vec<ToolUse>>,
}

/// One past turn of a conversation.
#[derive(Debug, PartialEq)]
pub enum ChatMessage {
    AssistantResponseMessage(AssistantResponseMessage),
    UserInputMessage(UserInputMessage),
}

/// A conversation: the past turns in the order they were made, and the
/// user's current turn.
#[derive(Debug, PartialEq)]
pub struct ConversationState {
    pub conversation_id: Option<String>,
    pub user_input_message: UserInputMessage,
    pub history: Option<Vec<ChatMessage>>,
}

/// One event of an answer. A tool call comes as two events: the first
/// announces the tool, the second carries the input and the stop mark.
#[derive(Debug, PartialEq)]
pub enum ChatResponseStream {
    AssistantResponseEvent { content: String },
    ToolUseEvent { tool_use_id: String, name: String, input: Option<String>, stop: Option<bool> },
}

} // verus!
