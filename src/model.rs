use vstd::prelude::*;
use crate::content::ToolCallPart;
use crate::file::{base64_encoding, encode_base64};
use crate::message::{CoreAssistantMessage, CoreMessage, CoreToolMessage};
use crate::settings::LanguageModelCallSettings;

verus! {

/// Why a model stopped producing output in one step.
#[derive(Debug, Clone, Copy, PartialEq, Eq, Structural)]
pub enum LanguageModelFinishReason {
    Stop,
    Length,
    ContentFilter,
    ToolCalls,
    Error,
    Other,
    Unknown,
}

impl Default for LanguageModelFinishReason {
    fn default() -> (r: Self)
        ensures
            r == LanguageModelFinishReason::Unknown,
    {
        LanguageModelFinishReason::Unknown
    }
}

/// Token counts of one or more model calls.
#[derive(Debug, Clone, Copy, PartialEq, Eq, Structural)]
pub struct LanguageModelUsage {
    pub prompt_tokens: u32,
    pub completion_tokens: u32,
    pub total_tokens: u32,
}

impl Default for LanguageModelUsage {
    fn default() -> (r: Self)
        ensures
            r == zero_usage(),
    {
        LanguageModelUsage { prompt_tokens: 0, completion_tokens: 0, total_tokens: 0 }
    }
}

pub open spec fn zero_usage() -> LanguageModelUsage {
    LanguageModelUsage { prompt_tokens: 0, completion_tokens: 0, total_tokens: 0 }
}

pub open spec fn saturating_sum(a: u32, b: u32) -> u32 {
    if a + b <= u32::MAX {
        (a + b) as u32
    } else {
        u32::MAX
    }
}

/// Element-wise sum of two usages, each count saturating at `u32::MAX`.
pub open spec fn usage_sum(a: LanguageModelUsage, b: LanguageModelUsage) -> LanguageModelUsage {
    LanguageModelUsage {
        prompt_tokens: saturating_sum(a.prompt_tokens, b.prompt_tokens),
        completion_tokens: saturating_sum(a.completion_tokens, b.completion_tokens),
        total_tokens: saturating_sum(a.total_tokens, b.total_tokens),
    }
}

impl LanguageModelUsage {
    /// The element-wise sum of two usages.
    pub fn add(&self, other: &LanguageModelUsage) -> (r: LanguageModelUsage)
        ensures
            r == usage_sum(*self, *other),
    {
        LanguageModelUsage {
            prompt_tokens: self.prompt_tokens.saturating_add(other.prompt_tokens),
            completion_tokens: self.completion_tokens.saturating_add(other.completion_tokens),
            total_tokens: self.total_tokens.saturating_add(other.total_tokens),
        }
    }
}

/// How a step came about.
#[derive(Debug, Clone, Copy, PartialEq, Eq, Structural)]
pub enum StepType {
    Initial,
    Continue,
    ToolResult,
}

/// A warning from the provider about the call.
#[derive(Debug)]
pub enum LanguageModelCallWarning {
    UnsupportedSetting { setting: String, details: Option<String> },
    UnsupportedTool { tool_name: String, details: Option<String> },
    Other { message: String },
}

impl Clone for LanguageModelCallWarning {
    fn clone(&self) -> (r: Self)
        ensures
            r == *self,
    {
        match self {
            LanguageModelCallWarning::UnsupportedSetting { setting, details } => {
                LanguageModelCallWarning::UnsupportedSetting {
                    setting: setting.clone(),
                    details: details.clone(),
                }
            },
            LanguageModelCallWarning::UnsupportedTool { tool_name, details } => {
                LanguageModelCallWarning::UnsupportedTool {
                    tool_name: tool_name.clone(),
                    details: details.clone(),
                }
            },
            LanguageModelCallWarning::Other { message } => {
                LanguageModelCallWarning::Other { message: message.clone() }
            },
        }
    }
}

#[derive(Debug, Clone, Copy, PartialEq, Eq, Structural)]
pub enum LanguageModelSourceType {
    Url,
}

/// A source that the model cited.
#[derive(Debug)]
pub struct LanguageModelSource {
    pub source_type: LanguageModelSourceType,
    pub id: String,
    pub url: String,
    pub title: Option<String>,
}

impl Clone for LanguageModelSource {
    fn clone(&self) -> (r: Self)
        ensures
            r == *self,
    {
        LanguageModelSource {
            source_type: self.source_type,
            id: self.id.clone(),
            url: self.url.clone(),
            title: self.title.clone(),
        }
    }
}

/// Metadata of the backend's response.
#[derive(Debug)]
pub struct LanguageModelResponseMetadata {
    pub id: String,
    pub timestamp: u64,
    pub model_id: String,
    pub headers: Vec<(String, String)>,
}

/// Content of a tool result as shown to a model.
#[derive(Debug)]
pub enum LanguageModelToolResultPartContent {
    Text(String),
    /// Image URL and optional MIME type.
    Image(String, Option<String>),
}

#[derive(Debug)]
pub enum LanguageModelImagePartContent {
    Base64(String),
    Url(String),
    Buffer(Vec<u8>),
}

#[derive(Debug)]
pub enum LanguageModelFilePartContent {
    Base64(String),
    Url(String),
}

/// Whether the request carries a bare prompt or a conversation.
#[derive(Debug, Clone, Copy, PartialEq, Eq, Structural)]
pub enum LanguageModelDoGenerateRequestInputFormat {
    Messages,
    Prompt,
}

/// One call to the model backend. It borrows the conversation held by the
/// generation that issues it.
#[derive(Debug)]
pub struct LanguageModelDoGenerateRequest<'a> {
    pub call_settings: &'a LanguageModelCallSettings,
    pub input_format: LanguageModelDoGenerateRequestInputFormat,
    pub system: Option<&'a String>,
    pub prompt: &'a [CoreMessage],
}

#[derive(Debug)]
pub enum LanguageModelDoGenerateResponseReasoning {
    Text { text: String, signature: Option<String> },
    Redacted(String),
}

#[derive(Debug)]
pub enum LanguageModelDoGenerateResponseFilesContent {
    Base64(String),
    Buffer(Vec<u8>),
}

#[derive(Debug)]
pub struct LanguageModelDoGenerateResponseFiles {
    pub file_content: LanguageModelDoGenerateResponseFilesContent,
    pub mime_type: String,
}

/// What the backend returns for one call.
#[derive(Debug)]
pub struct LanguageModelDoGenerateResponse {
    pub text: Option<String>,
    pub reasoning: Vec<LanguageModelDoGenerateResponseReasoning>,
    pub files: Vec<LanguageModelDoGenerateResponseFiles>,
    pub tool_calls: Vec<ToolCallPart>,
    pub finish_reason: LanguageModelFinishReason,
    pub usage: LanguageModelUsage,
    pub warnings: Vec<LanguageModelCallWarning>,
    pub sources: Vec<LanguageModelSource>,
    pub response: Option<LanguageModelResponseMetadata>,
}

/// A file that a step produced, as base64 text.
#[derive(Debug)]
pub struct GeneratedFile {
    pub base64: String,
    pub mime_type: String,
}

impl Clone for GeneratedFile {
    fn clone(&self) -> (r: Self)
        ensures
            r == *self,
    {
        GeneratedFile { base64: self.base64.clone(), mime_type: self.mime_type.clone() }
    }
}

/// A message that a step added to the conversation, with its id.
#[derive(Debug)]
pub enum ResponseMessage {
    AssistantResponse(String, CoreAssistantMessage),
    ToolResponse(String, CoreToolMessage),
}

/// The backend's response as a step saw it.
#[derive(Debug)]
pub struct StepResultResponse {
    pub model_response: LanguageModelResponseMetadata,
    pub messages: Vec<ResponseMessage>,
    pub body: String,
}

/// The outcome of one step, folded into the generation once it is complete.
#[derive(Debug)]
pub struct StepResult {
    pub text: String,
    pub reasoning_text: String,
    pub files: Vec<GeneratedFile>,
    pub sources: Vec<LanguageModelSource>,
    pub tool_calls: Vec<ToolCallPart>,
    pub finish_reason: LanguageModelFinishReason,
    pub usage: LanguageModelUsage,
    pub warnings: Vec<LanguageModelCallWarning>,
    pub response: Option<LanguageModelResponseMetadata>,
    pub step_type: StepType,
    pub is_continued: bool,
}

/// The text of the reasoning entries of a response, in order; redacted
/// entries contribute nothing.
pub open spec fn reasoning_text_of(r: Seq<LanguageModelDoGenerateResponseReasoning>) -> Seq<char>
    decreases r.len(),
{
    if r.len() == 0 {
        Seq::empty()
    } else {
        let rest = reasoning_text_of(r.drop_last());
        match r.last() {
            LanguageModelDoGenerateResponseReasoning::Text { text, .. } => rest + text@,
            LanguageModelDoGenerateResponseReasoning::Redacted(_) => rest,
        }
    }
}

/// The base64 text of a file of a response.
pub open spec fn file_base64(c: LanguageModelDoGenerateResponseFilesContent) -> Seq<char> {
    match c {
        LanguageModelDoGenerateResponseFilesContent::Base64(s) => s@,
        LanguageModelDoGenerateResponseFilesContent::Buffer(b) => base64_encoding(b@),
    }
}

impl StepResult {
    /// Translates a backend response into the result of a step.
    pub fn from_response(response: LanguageModelDoGenerateResponse, step_type: StepType) -> (r: StepResult)
        ensures
            r.text@ == (match response.text {
                Some(t) => t@,
                None => Seq::empty(),
            }),
            r.reasoning_text@ == reasoning_text_of(response.reasoning@),
            r.files@.len() == response.files@.len(),
            forall|i: int|
                0 <= i < r.files@.len() ==> {
                    &&& (#[trigger] r.files@[i]).mime_type == response.files@[i].mime_type
                    &&& r.files@[i].base64@ == file_base64(response.files@[i].file_content)
                },
            r.sources == response.sources,
            r.tool_calls == response.tool_calls,
            r.finish_reason == response.finish_reason,
            r.usage == response.usage,
            r.warnings == response.warnings,
            r.response == response.response,
            r.step_type == step_type,
            !r.is_continued,
    {
        let LanguageModelDoGenerateResponse {
            text,
            reasoning,
            files,
            tool_calls,
            finish_reason,
            usage,
            warnings,
            sources,
            response,
        } = response;
        let text = match text {
            Some(t) => t,
            None => String::new(),
        };
        let mut reasoning_text = String::new();
        let mut i: usize = 0;
        while i < reasoning.len()
            invariant
                0 <= i <= reasoning@.len(),
                reasoning_text@ == reasoning_text_of(reasoning@.subrange(0, i as int)),
            decreases reasoning@.len() - i,
        {
            proof {
                assert(reasoning@.subrange(0, i + 1).drop_last() == reasoning@.subrange(0, i as int));
            }
            match &reasoning[i] {
                LanguageModelDoGenerateResponseReasoning::Text { text: t, .. } => {
                    reasoning_text.append(t.as_str());
                },
                LanguageModelDoGenerateResponseReasoning::Redacted(_) => {},
            }
            i = i + 1;
        }
        proof {
            assert(reasoning@.subrange(0, reasoning@.len() as int) == reasoning@);
        }
        let mut out: Vec<GeneratedFile> = Vec::new();
        let mut j: usize = 0;
        while j < files.len()
            invariant
                0 <= j <= files@.len(),
                out@.len() == j,
                forall|k: int|
                    0 <= k < j ==> {
                        &&& (#[trigger] out@[k]).mime_type == files@[k].mime_type
                        &&& out@[k].base64@ == file_base64(files@[k].file_content)
                    },
            decreases files@.len() - j,
        {
            let f = &files[j];
            let base64 = match &f.file_content {
                LanguageModelDoGenerateResponseFilesContent::Base64(s) => s.clone(),
                LanguageModelDoGenerateResponseFilesContent::Buffer(b) => encode_base64(b.as_slice()),
            };
            out.push(GeneratedFile { base64, mime_type: f.mime_type.clone() });
            j = j + 1;
        }
        StepResult {
            text,
            reasoning_text,
            files: out,
            sources,
            tool_calls,
            finish_reason,
            usage,
            warnings,
            response,
            step_type,
            is_continued: false,
        }
    }
}

} // verus!
