use ai_orchestrator::error::ModelError;
use ai_orchestrator::file::GenerateFile;
use ai_orchestrator::model::{
    LanguageModelDoGenerateResponse, LanguageModelDoGenerateResponseFiles,
    LanguageModelDoGenerateResponseFilesContent, LanguageModelDoGenerateResponseReasoning,
    LanguageModelFinishReason, LanguageModelUsage, StepResult, StepType,
};

#[test]
fn buffer_is_encoded_on_request() {
    let mut f = GenerateFile::with_buffer(b"hello".to_vec(), "text/plain".to_string());
    assert_eq!(f.get_base64(), "aGVsbG8=");
    assert_eq!(f.base64.as_deref(), Some("aGVsbG8="));
    assert_eq!(f.get_buffer().unwrap(), b"hello".to_vec());
}

#[test]
fn base64_is_decoded_on_request() {
    let mut f = GenerateFile::with_base64("aGk=".to_string(), "text/plain".to_string());
    assert_eq!(f.get_buffer().unwrap(), b"hi".to_vec());
    assert_eq!(f.buffer, Some(b"hi".to_vec()));
    assert_eq!(f.get_base64(), "aGk=");
}

#[test]
fn invalid_base64_is_rejected() {
    let mut f = GenerateFile::with_base64("not base64!".to_string(), "text/plain".to_string());
    assert!(matches!(f.get_buffer(), Err(ModelError::InvalidArgument(_))));
    assert!(f.buffer.is_none());
}

#[test]
fn empty_buffer_encodes_to_empty_text() {
    let mut f = GenerateFile::with_buffer(vec![], "application/octet-stream".to_string());
    assert_eq!(f.get_base64(), "");
}

#[test]
fn response_translates_into_step() {
    let response = LanguageModelDoGenerateResponse {
        text: None,
        reasoning: vec![
            LanguageModelDoGenerateResponseReasoning::Text { text: "think ".to_string(), signature: None },
            LanguageModelDoGenerateResponseReasoning::Redacted("xxx".to_string()),
            LanguageModelDoGenerateResponseReasoning::Text { text: "more".to_string(), signature: Some("s".to_string()) },
        ],
        files: vec![
            LanguageModelDoGenerateResponseFiles {
                file_content: LanguageModelDoGenerateResponseFilesContent::Buffer(vec![0xff, 0x00]),
                mime_type: "image/png".to_string(),
            },
            LanguageModelDoGenerateResponseFiles {
                file_content: LanguageModelDoGenerateResponseFilesContent::Base64("QQ==".to_string()),
                mime_type: "text/plain".to_string(),
            },
        ],
        tool_calls: vec![],
        finish_reason: LanguageModelFinishReason::Length,
        usage: LanguageModelUsage { prompt_tokens: 1, completion_tokens: 2, total_tokens: 3 },
        warnings: vec![],
        sources: vec![],
        response: None,
    };
    let step = StepResult::from_response(response, StepType::Continue);
    assert_eq!(step.text, "");
    assert_eq!(step.reasoning_text, "think more");
    assert_eq!(step.files.len(), 2);
    assert_eq!(step.files[0].base64, "/wA=");
    assert_eq!(step.files[0].mime_type, "image/png");
    assert_eq!(step.files[1].base64, "QQ==");
    assert_eq!(step.finish_reason, LanguageModelFinishReason::Length);
    assert_eq!(step.step_type, StepType::Continue);
    assert!(!step.is_continued);
}

#[test]
fn finish_reason_defaults_to_unknown() {
    assert_eq!(LanguageModelFinishReason::default(), LanguageModelFinishReason::Unknown);
    assert_eq!(
        LanguageModelUsage::default(),
        LanguageModelUsage { prompt_tokens: 0, completion_tokens: 0, total_tokens: 0 }
    );
}
