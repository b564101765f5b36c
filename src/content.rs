use vstd::prelude::*;

verus! {

/// Plain text.
#[derive(Debug)]
pub struct TextPart {
    pub text: String,
}

/// An image, given inline as bytes or by URL.
#[derive(Debug, Clone)]
pub struct ImagePart {
    pub image: Option<Vec<u8>>,
    pub image_url: Option<String>,
    pub mime_type: Option<String>,
}

/// A file, given inline as bytes or by URL.
#[derive(Debug, Clone)]
pub struct FilePart {
    pub file_name: Option<String>,
    pub file_content: Option<Vec<u8>>,
    pub file_url: Option<String>,
    pub mime_type: Option<String>,
}

/// One part of a user message.
#[derive(Debug, Clone)]
pub enum UserContentParts {
    Text(TextPart),
    Image(ImagePart),
    File(FilePart),
}

/// Content of a user message: a bare string or a list of parts.
#[derive(Debug, Clone)]
pub enum UserContent {
    Text(String),
    Parts(Vec<UserContentParts>),
}

/// Reasoning text produced by a model, with its optional signature.
#[derive(Debug, Clone)]
pub struct ReasoningPart {
    pub text: String,
    pub signature: Option<String>,
}

/// Reasoning that the provider returned in redacted form.
#[derive(Debug, Clone)]
pub struct RedactedReasoningPart {
    pub data: String,
}

/// A model-issued request to run a named tool with JSON arguments.
#[derive(Debug)]
pub struct ToolCallPart {
    pub tool_call_id: String,
    pub tool_name: String,
    pub args: String,
}

/// One part of an assistant message.
#[derive(Debug, Clone)]
pub enum AssistantContentParts {
    Text(TextPart),
    File(FilePart),
    Reasoning(ReasoningPart),
    RedactedReasoning(RedactedReasoningPart),
    ToolCall(ToolCallPart),
}

/// Content of an assistant message: a bare string or a list of parts.
#[derive(Debug, Clone)]
pub enum AssistantContent {
    Text(String),
    Parts(Vec<AssistantContentParts>),
}

/// The outcome of one tool call, fed back to the model.
#[derive(Debug)]
pub struct ToolResultPart {
    pub tool_call_id: String,
    pub tool_name: String,
    pub result: String,
    pub is_error: Option<bool>,
}

impl Clone for TextPart {
    fn clone(&self) -> (r: Self)
        ensures
            r == *self,
    {
        TextPart { text: self.text.clone() }
    }
}

impl Clone for ToolCallPart {
    fn clone(&self) -> (r: Self)
        ensures
            r == *self,
    {
        ToolCallPart {
            tool_call_id: self.tool_call_id.clone(),
            tool_name: self.tool_name.clone(),
            args: self.args.clone(),
        }
    }
}

impl Clone for ToolResultPart {
    fn clone(&self) -> (r: Self)
        ensures
            r == *self,
    {
        ToolResultPart {
            tool_call_id: self.tool_call_id.clone(),
            tool_name: self.tool_name.clone(),
            result: self.result.clone(),
            is_error: self.is_error,
        }
    }
}

} // verus!
