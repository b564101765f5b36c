use ai_orchestrator::error::{ModelError, ProviderError};
use ai_orchestrator::openai::{
    trim_whitespace, OpenAIChatModel, OpenAIChatModelId, OpenAIChatSettingsReasoningEffort, OpenAIProvider,
    OpenAIProviderSettings, OpenAIProviderSettingsCompatibility,
};
use ai_orchestrator::settings::{LanguageModelCallSettings, LanguageModelCallSettingsResponseFormat};
use ai_orchestrator::util::{str_eq, without_trailing_slash};

#[test]
fn model_ids_parse_and_print() {
    assert_eq!(OpenAIChatModelId::parse("gpt-4o"), OpenAIChatModelId::GPT4o);
    assert_eq!(OpenAIChatModelId::parse("o3-2025-04-16"), OpenAIChatModelId::O32025_04_16);
    assert_eq!(OpenAIChatModelId::parse("chatgpt-4o-latest"), OpenAIChatModelId::ChatGPT4oLatest);
    assert_eq!(OpenAIChatModelId::parse("my-model"), OpenAIChatModelId::Custom("my-model".to_string()));
    assert_eq!(OpenAIChatModelId::GPT35Turbo1106.as_string(), "gpt-3.5-turbo-1106");
    assert_eq!(OpenAIChatModelId::Custom("x".to_string()).as_string(), "x");
    let parsed: OpenAIChatModelId = "gpt-4.1-nano".parse().unwrap();
    assert_eq!(parsed, OpenAIChatModelId::GPT41Nano);
}

#[test]
fn settings_builders() {
    let s = OpenAIProviderSettings::new("key".to_string())
        .base_url("https://example.com/v1/")
        .organization_id("org".to_string())
        .project_id("proj".to_string())
        .headers(vec![("X".to_string(), "1".to_string())])
        .compatibility(OpenAIProviderSettingsCompatibility::COMPATIBLE)
        .name("other");
    assert_eq!(s.base_url, "https://example.com/v1");
    assert_eq!(s.api_key, "key");
    assert_eq!(s.organization_id.as_deref(), Some("org"));
    assert_eq!(s.project_id.as_deref(), Some("proj"));
    assert_eq!(s.headers.as_ref().unwrap().len(), 1);
    assert_eq!(s.compatibility, OpenAIProviderSettingsCompatibility::COMPATIBLE);
    assert_eq!(s.name, "other");
    let d = OpenAIProvider::default();
    assert_eq!(d.settings.base_url, "https://api.openai.com/v1");
    assert_eq!(d.settings.name, "openai");
}

#[test]
fn trailing_slash_is_dropped_once() {
    assert_eq!(without_trailing_slash("a/b/"), "a/b");
    assert_eq!(without_trailing_slash("a/b//"), "a/b/");
    assert_eq!(without_trailing_slash("a/b"), "a/b");
    assert_eq!(without_trailing_slash(""), "");
    assert_eq!(without_trailing_slash("/"), "");
    assert!(str_eq("abc", "abc"));
    assert!(!str_eq("abc", "abd"));
    assert!(!str_eq("abc", "ab"));
}

#[test]
fn headers_follow_settings() {
    let p = OpenAIProvider::new(OpenAIProviderSettings::new("sk".to_string()).organization_id("o".to_string()));
    let h = p.get_headers().unwrap();
    assert_eq!(
        h,
        vec![
            ("Authorization".to_string(), "Bearer sk".to_string()),
            ("Content-Type".to_string(), "application/json".to_string()),
            ("OpenAI-Organization".to_string(), "o".to_string()),
        ]
    );
    let p = OpenAIProvider::new(OpenAIProviderSettings::new(String::new()).project_id("p".to_string()));
    let h = p.get_headers().unwrap();
    assert_eq!(h.len(), 3);
    assert_eq!(h[2], ("OpenAI-Project".to_string(), "p".to_string()));
}

#[test]
fn language_model_checks_the_id() {
    let p = OpenAIProvider::default();
    assert!(matches!(p.language_model(""), Err(ProviderError::InvalidModelId(_))));
    match p.language_model("  gpt-4o \n") {
        Err(ProviderError::ModelError(ModelError::NotSupported(m))) => {
            assert_eq!(m, "OpenAIProvider::create_chat_model is not implemented yet. Model ID: gpt-4o")
        }
        other => panic!("unexpected {:?}", other),
    }
    assert_eq!(trim_whitespace(" \t a b \n"), "a b");
    assert_eq!(trim_whitespace("   "), "");
}

#[test]
fn chat_model_builders() {
    let m = OpenAIChatModel::new()
        .with_log_probs(3)
        .with_parallel_calls(false)
        .with_structured_output(true)
        .with_user("u".to_string())
        .with_download_images(true)
        .with_reasoning_effort(OpenAIChatSettingsReasoningEffort::High);
    assert_eq!(m.log_probs, Some(3));
    assert!(!m.parallel_calls);
    assert!(m.structured_output);
    assert_eq!(m.user.as_deref(), Some("u"));
    assert!(m.download_images);
    assert_eq!(m.reasoning_effort, OpenAIChatSettingsReasoningEffort::High);
    assert!(matches!(OpenAIChatModel::generate(), Err(ModelError::NotSupported(_))));
}

#[test]
fn call_settings_are_prepared() {
    let mut s = LanguageModelCallSettings::default();
    assert_eq!(s.max_tokens, 2056);
    assert_eq!(s.max_retries, 2);
    s.stop_sequences = Some(vec![]);
    s.response_format = Some(LanguageModelCallSettingsResponseFormat::Json);
    assert!(s.prepare().is_ok());
    assert!(s.stop_sequences.is_none());
    s.stop_sequences = Some(vec!["END".to_string()]);
    assert!(s.prepare().is_ok());
    assert_eq!(s.stop_sequences, Some(vec!["END".to_string()]));
    s.max_tokens = 0;
    assert!(matches!(s.prepare(), Err(ModelError::InvalidArgument(_))));
}

#[test]
fn error_messages() {
    assert_eq!(ModelError::NotFound("x".to_string()).message(), "Model not found");
    assert_eq!(ModelError::InvalidPrompt("p".to_string()).message(), "Invalid prompt provided: p");
    assert_eq!(ModelError::Other("o".to_string()).message(), "Some unknown error occurred: o");
    assert!(ModelError::InternalError(String::new()).is_retryable());
    assert!(!ModelError::NotSupported(String::new()).is_retryable());
}
