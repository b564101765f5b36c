use ai_orchestrator::content::{AssistantContent, ToolResultPart, UserContent, UserContentParts, TextPart};
use ai_orchestrator::error::ModelError;
use ai_orchestrator::message::{CoreAssistantMessage, CoreMessage, CoreSystemMessage, CoreToolMessage, CoreUserMessage};
use ai_orchestrator::prompt::{
    detect_prompt_type, detect_single_message_characteristics, Prompt, PromptCharacteristics, PromptType,
    StandardizedPrompt, StandardizedPromptKind,
};

fn user(text: &str) -> CoreMessage {
    CoreMessage::User(CoreUserMessage { content: UserContent::Text(text.to_string()) })
}

fn rejection(p: Prompt) -> String {
    match StandardizedPrompt::try_from(p) {
        Err(ModelError::InvalidPrompt(s)) => s,
        other => panic!("expected an invalid prompt, got {:?}", other),
    }
}

#[test]
fn neither_text_nor_messages_is_rejected() {
    let s = rejection(Prompt { system: Some("sys".to_string()), prompt: None, messages: None });
    assert_eq!(s, "Prompt must contain either a prompt or messages");
    let s = rejection(Prompt::default());
    assert_eq!(s, "Prompt must contain either a prompt or messages");
}

#[test]
fn both_text_and_messages_is_rejected() {
    let s = rejection(Prompt { system: None, prompt: Some("hi".to_string()), messages: Some(vec![user("a")]) });
    assert_eq!(s, "Prompt cannot contain both a prompt and messages");
    let s = rejection(Prompt { system: None, prompt: Some(String::new()), messages: Some(vec![]) });
    assert_eq!(s, "Prompt cannot contain both a prompt and messages");
}

#[test]
fn empty_messages_are_rejected() {
    let s = rejection(Prompt { system: Some("s".to_string()), prompt: None, messages: Some(vec![]) });
    assert_eq!(s, "Messages cannot be empty");
}

#[test]
fn text_prompt_becomes_one_user_message() {
    let p = Prompt { system: None, prompt: Some("hi".to_string()), messages: None };
    let sp = StandardizedPrompt::try_from(p).unwrap();
    assert_eq!(sp.kind, StandardizedPromptKind::Prompt);
    assert_eq!(sp.messages.len(), 1);
    match &sp.messages[0] {
        CoreMessage::User(CoreUserMessage { content: UserContent::Text(t) }) => assert_eq!(t, "hi"),
        other => panic!("unexpected message {:?}", other),
    }
    assert!(sp.system.is_none());
}

#[test]
fn messages_pass_through_with_system() {
    let p = Prompt {
        system: Some("be brief".to_string()),
        prompt: None,
        messages: Some(vec![user("one"), user("two")]),
    };
    let sp = StandardizedPrompt::try_from(p).unwrap();
    assert_eq!(sp.kind, StandardizedPromptKind::Messages);
    assert_eq!(sp.system.as_deref(), Some("be brief"));
    assert_eq!(sp.messages.len(), 2);
    match &sp.messages[1] {
        CoreMessage::User(CoreUserMessage { content: UserContent::Text(t) }) => assert_eq!(t, "two"),
        other => panic!("unexpected message {:?}", other),
    }
}

#[test]
fn message_characteristics() {
    let sys = CoreMessage::System(CoreSystemMessage { content: "s".to_string() });
    assert_eq!(detect_single_message_characteristics(&sys), PromptCharacteristics::Message);
    assert_eq!(detect_single_message_characteristics(&user("x")), PromptCharacteristics::Message);
    let parts = CoreMessage::User(CoreUserMessage {
        content: UserContent::Parts(vec![UserContentParts::Text(TextPart { text: "x".to_string() })]),
    });
    assert_eq!(detect_single_message_characteristics(&parts), PromptCharacteristics::HasCoreSpecificParts);
    let assistant = CoreMessage::Assistant(CoreAssistantMessage { content: AssistantContent::Text("a".to_string()) });
    assert_eq!(detect_single_message_characteristics(&assistant), PromptCharacteristics::Message);
    let empty_tool = CoreMessage::Tool(CoreToolMessage { content: vec![] });
    assert_eq!(detect_single_message_characteristics(&empty_tool), PromptCharacteristics::Message);
    let tool = CoreMessage::Tool(CoreToolMessage {
        content: vec![ToolResultPart {
            tool_call_id: "1".to_string(),
            tool_name: "t".to_string(),
            result: "r".to_string(),
            is_error: None,
        }],
    });
    assert_eq!(detect_single_message_characteristics(&tool), PromptCharacteristics::HasCoreSpecificParts);
    assert_eq!(detect_prompt_type(&[sys, parts, tool]), PromptType::Messages);
    assert_eq!(detect_prompt_type(&[]), PromptType::Messages);
}
