use vstd::prelude::*;
use crate::content::{AssistantContent, UserContent};
use crate::error::ModelError;
use crate::message::{CoreMessage, CoreUserMessage};

verus! {

/// Prompt part of a generation request: an optional system message and either
/// a simple text prompt or a list of messages, but not both.
#[derive(Debug, Default)]
pub struct Prompt {
    /// System message, usable with either form.
    pub system: Option<String>,
    /// A simple text prompt.
    pub prompt: Option<String>,
    /// A list of messages.
    pub messages: Option<Vec<CoreMessage>>,
}

/// Which of the two forms a standardized prompt came from.
#[derive(Debug, Clone, Copy, PartialEq, Eq, Structural)]
pub enum StandardizedPromptKind {
    Prompt,
    Messages,
}

/// The canonical form of a prompt: a non-empty sequence of messages.
#[derive(Debug)]
pub struct StandardizedPrompt {
    pub kind: StandardizedPromptKind,
    pub system: Option<String>,
    pub messages: Vec<CoreMessage>,
}

/// A prompt is well formed when exactly one form is given and a message list
/// is not empty.
pub open spec fn prompt_is_valid(p: Prompt) -> bool {
    match (p.prompt, p.messages) {
        (Some(_), None) => true,
        (None, Some(m)) => m@.len() > 0,
        _ => false,
    }
}

/// The single user message that a text prompt stands for.
pub open spec fn user_text_message(text: String) -> CoreMessage {
    CoreMessage::User(CoreUserMessage { content: UserContent::Text(text) })
}

/// The reason standardization rejects a prompt that is not well formed.
pub open spec fn prompt_rejection(p: Prompt) -> Seq<char> {
    if p.prompt is None && p.messages is None {
        "Prompt must contain either a prompt or messages"@
    } else if p.prompt is Some && p.messages is Some {
        "Prompt cannot contain both a prompt and messages"@
    } else {
        "Messages cannot be empty"@
    }
}

impl StandardizedPrompt {
    /// Validates a prompt and turns it into its canonical message sequence.
    pub fn try_from(prompt: Prompt) -> (r: Result<StandardizedPrompt, ModelError>)
        ensures
            r is Ok <==> prompt_is_valid(prompt),
            r is Err ==> (r->Err_0 is InvalidPrompt && r->Err_0->InvalidPrompt_0@ == prompt_rejection(
                prompt,
            )),
            r is Ok ==> r->Ok_0.system == prompt.system,
            r is Ok && prompt.prompt is Some ==> {
                &&& r->Ok_0.kind == StandardizedPromptKind::Prompt
                &&& r->Ok_0.messages@ == seq![user_text_message(prompt.prompt->Some_0)]
            },
            r is Ok && prompt.messages is Some ==> {
                &&& r->Ok_0.kind == StandardizedPromptKind::Messages
                &&& r->Ok_0.messages == prompt.messages->Some_0
            },
    {
        let Prompt { system, prompt: text, messages } = prompt;
        match (text, messages) {
            (None, None) => Err(
                ModelError::InvalidPrompt("Prompt must contain either a prompt or messages".to_owned()),
            ),
            (Some(_), Some(_)) => Err(
                ModelError::InvalidPrompt("Prompt cannot contain both a prompt and messages".to_owned()),
            ),
            (Some(t), None) => Ok(
                StandardizedPrompt {
                    kind: StandardizedPromptKind::Prompt,
                    system,
                    messages: vec![CoreMessage::User(CoreUserMessage { content: UserContent::Text(t) })],
                },
            ),
            (None, Some(m)) => {
                if m.len() == 0 {
                    Err(ModelError::InvalidPrompt("Messages cannot be empty".to_owned()))
                } else {
                    Ok(StandardizedPrompt { kind: StandardizedPromptKind::Messages, system, messages: m })
                }
            },
        }
    }
}

/// Whether a message list is made of interface messages or of core messages.
#[derive(Debug, Clone, Copy, PartialEq, Eq, Structural)]
pub enum PromptType {
    UIMessages,
    Messages,
    Other,
}

/// What a single message reveals about the list it belongs to.
#[derive(Debug, Clone, Copy, PartialEq, Eq, Structural)]
pub enum PromptCharacteristics {
    HasUISpecificParts,
    HasCoreSpecificParts,
    Message,
}

pub open spec fn spec_message_characteristics(m: CoreMessage) -> PromptCharacteristics {
    match m {
        CoreMessage::System(_) => PromptCharacteristics::Message,
        CoreMessage::User(u) => match u.content {
            UserContent::Text(_) => PromptCharacteristics::Message,
            UserContent::Parts(_) => PromptCharacteristics::HasCoreSpecificParts,
        },
        CoreMessage::Assistant(a) => match a.content {
            AssistantContent::Text(_) => PromptCharacteristics::Message,
            AssistantContent::Parts(_) => PromptCharacteristics::HasCoreSpecificParts,
        },
        CoreMessage::Tool(t) => if t.content@.len() == 0 {
            PromptCharacteristics::Message
        } else {
            PromptCharacteristics::HasCoreSpecificParts
        },
    }
}

/// Classifies one message: plain text content is a bare message, structured
/// content is specific to core messages.
pub fn detect_single_message_characteristics(message: &CoreMessage) -> (r: PromptCharacteristics)
    ensures
        r == spec_message_characteristics(*message),
{
    match message {
        CoreMessage::System(_) => PromptCharacteristics::Message,
        CoreMessage::User(user_message) => match &user_message.content {
            UserContent::Text(_) => PromptCharacteristics::Message,
            UserContent::Parts(_) => PromptCharacteristics::HasCoreSpecificParts,
        },
        CoreMessage::Assistant(assistant_message) => match &assistant_message.content {
            AssistantContent::Text(_) => PromptCharacteristics::Message,
            AssistantContent::Parts(_) => PromptCharacteristics::HasCoreSpecificParts,
        },
        CoreMessage::Tool(tool_message) => {
            if tool_message.content.len() == 0 {
                PromptCharacteristics::Message
            } else {
                PromptCharacteristics::HasCoreSpecificParts
            }
        },
    }
}

/// A list is made of interface messages when any of its messages has parts
/// that only interface messages carry; otherwise it is a list of core messages.
pub fn detect_prompt_type(messages: &[CoreMessage]) -> (r: PromptType)
    ensures
        r == (if exists|i: int|
            0 <= i < messages@.len() && spec_message_characteristics(#[trigger] messages@[i])
                == PromptCharacteristics::HasUISpecificParts {
            PromptType::UIMessages
        } else {
            PromptType::Messages
        }),
{
    let mut i: usize = 0;
    while i < messages.len()
        invariant
            0 <= i <= messages@.len(),
            forall|j: int|
                0 <= j < i ==> spec_message_characteristics(#[trigger] messages@[j])
                    != PromptCharacteristics::HasUISpecificParts,
        decreases messages@.len() - i,
    {
        if detect_single_message_characteristics(&messages[i])
            == PromptCharacteristics::HasUISpecificParts {
            return PromptType::UIMessages;
        }
        i = i + 1;
    }
    PromptType::Messages
}

} // verus!
