use vstd::prelude::*;
use crate::content::{AssistantContent, ToolResultPart, UserContent};

verus! {

/// Instructions that frame the conversation.
#[derive(Debug, Clone)]
pub struct CoreSystemMessage {
    pub content: String,
}

/// What the user said.
#[derive(Debug, Clone)]
pub struct CoreUserMessage {
    pub content: UserContent,
}

/// What the model answered, including the tool calls it asked for.
#[derive(Debug, Clone)]
pub struct CoreAssistantMessage {
    pub content: AssistantContent,
}

/// The results of the tool calls of one step.
#[derive(Debug, Clone)]
pub struct CoreToolMessage {
    pub content: Vec<ToolResultPart>,
}

/// One message of a conversation, tagged by role.
#[derive(Debug, Clone)]
pub enum CoreMessage {
    System(CoreSystemMessage),
    User(CoreUserMessage),
    Assistant(CoreAssistantMessage),
    Tool(CoreToolMessage),
}

} // verus!
