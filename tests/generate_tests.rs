use ai_orchestrator::content::{AssistantContent, AssistantContentParts, ToolCallPart};
use ai_orchestrator::error::ModelError;
use ai_orchestrator::generate::{GenerateTextOptions, Generation, GenerationAction, GenerationPhase};
use ai_orchestrator::message::CoreMessage;
use ai_orchestrator::model::{
    LanguageModelCallWarning, LanguageModelDoGenerateResponse, LanguageModelFinishReason, LanguageModelUsage,
    StepResult, StepType,
};
use ai_orchestrator::retry::RetryError;
use ai_orchestrator::tool::{Tool, ToolArrival, ToolOutcome, ToolSet};

fn usage(p: u32, c: u32, t: u32) -> LanguageModelUsage {
    LanguageModelUsage { prompt_tokens: p, completion_tokens: c, total_tokens: t }
}

fn call(id: &str, name: &str) -> ToolCallPart {
    ToolCallPart { tool_call_id: id.to_string(), tool_name: name.to_string(), args: "{}".to_string() }
}

fn response(
    text: &str,
    finish: LanguageModelFinishReason,
    calls: Vec<ToolCallPart>,
    u: LanguageModelUsage,
) -> LanguageModelDoGenerateResponse {
    LanguageModelDoGenerateResponse {
        text: Some(text.to_string()),
        reasoning: vec![],
        files: vec![],
        tool_calls: calls,
        finish_reason: finish,
        usage: u,
        warnings: vec![],
        sources: vec![],
        response: None,
    }
}

fn tools(names: &[&str]) -> ToolSet {
    let mut set = ToolSet::new();
    for n in names {
        assert!(set.register(n.to_string(), Tool { description: None, parameters: "{}".to_string() }));
    }
    set
}

fn start(max_steps: usize) -> Generation {
    let options = GenerateTextOptions::default()
        .system("You are a helpful assistant.".to_string())
        .prompt("What is the weather?".to_string())
        .max_steps(max_steps);
    Generation::start(options).unwrap()
}

/// Drives a generation against scripted responses, answering every tool call
/// with its own id. Returns the generation, the number of model calls and the
/// number of tool resolutions.
fn drive(mut g: Generation, script: Vec<LanguageModelDoGenerateResponse>, set: &ToolSet) -> (Generation, usize, usize) {
    let mut script = script.into_iter();
    let mut model_calls = 0;
    let mut resolutions = 0;
    let mut action = GenerationAction::CallModel;
    loop {
        match action {
            GenerationAction::CallModel => {
                let _request = g.request();
                model_calls += 1;
                let step = StepResult::from_response(script.next().unwrap(), g.next_step_type);
                action = g.on_step(step);
            }
            GenerationAction::ResolveTools => {
                resolutions += 1;
                let arrivals: Vec<ToolArrival> = g
                    .pending
                    .iter()
                    .enumerate()
                    .map(|(i, c)| ToolArrival { index: i, outcome: ToolOutcome::Returned(c.tool_call_id.clone()) })
                    .collect();
                action = g.on_tool_results(set, &arrivals).unwrap();
            }
            GenerationAction::Finish => return (g, model_calls, resolutions),
        }
    }
}

#[test]
fn usage_is_summed_over_steps() {
    let set = tools(&["weather"]);
    let script = vec![
        response("", LanguageModelFinishReason::ToolCalls, vec![call("a", "weather")], usage(10, 5, 15)),
        response("", LanguageModelFinishReason::ToolCalls, vec![call("b", "weather")], usage(8, 2, 10)),
        response("sunny", LanguageModelFinishReason::Stop, vec![], usage(0, 0, 0)),
    ];
    let (g, calls, _) = drive(start(3), script, &set);
    assert_eq!(calls, 3);
    let result = g.finish();
    assert_eq!(result.usage, usage(18, 7, 25));
    assert_eq!(result.steps.len(), 3);
    assert_eq!(result.text, "sunny");
}

#[test]
fn usage_saturates() {
    let a = usage(u32::MAX, 1, 2);
    assert_eq!(a.add(&usage(5, 2, 3)), usage(u32::MAX, 3, 5));
}

#[test]
fn single_step_budget_stops_at_tool_calls() {
    let set = tools(&["weather"]);
    let script = vec![response("", LanguageModelFinishReason::ToolCalls, vec![call("a", "weather")], usage(1, 1, 2))];
    let (g, calls, resolutions) = drive(start(1), script, &set);
    assert_eq!(calls, 1);
    assert_eq!(resolutions, 0);
    assert_eq!(g.phase, GenerationPhase::Done);
    let result = g.finish();
    assert_eq!(result.finish_reason, LanguageModelFinishReason::ToolCalls);
    assert_eq!(result.steps.len(), 1);
}

#[test]
fn tool_round_then_stop() {
    let set = tools(&["weather"]);
    let script = vec![
        response("", LanguageModelFinishReason::ToolCalls, vec![call("a", "weather")], usage(1, 1, 2)),
        response("done", LanguageModelFinishReason::Stop, vec![], usage(1, 1, 2)),
    ];
    let (g, calls, resolutions) = drive(start(3), script, &set);
    assert_eq!(calls, 2);
    assert_eq!(resolutions, 1);
    assert_eq!(g.steps[1].step_type, StepType::ToolResult);
    assert_eq!(g.steps[0].step_type, StepType::Initial);
    // user prompt, assistant tool calls, tool results
    assert_eq!(g.messages.len(), 3);
    match &g.messages[1] {
        CoreMessage::Assistant(m) => match &m.content {
            AssistantContent::Parts(p) => {
                assert_eq!(p.len(), 1);
                match &p[0] {
                    AssistantContentParts::ToolCall(c) => assert_eq!(c.tool_call_id, "a"),
                    other => panic!("unexpected {:?}", other),
                }
            }
            other => panic!("unexpected {:?}", other),
        },
        other => panic!("unexpected {:?}", other),
    }
    let result = g.finish();
    assert_eq!(result.finish_reason, LanguageModelFinishReason::Stop);
    assert_eq!(result.text, "done");
}

#[test]
fn tool_results_keep_request_order() {
    let set = tools(&["weather", "time"]);
    let mut g = start(2);
    let step = StepResult::from_response(
        response("", LanguageModelFinishReason::ToolCalls, vec![call("first", "weather"), call("second", "time")], usage(0, 0, 0)),
        StepType::Initial,
    );
    assert_eq!(g.on_step(step), GenerationAction::ResolveTools);
    let arrivals = vec![
        ToolArrival { index: 1, outcome: ToolOutcome::Returned("noon".to_string()) },
        ToolArrival { index: 0, outcome: ToolOutcome::Failed("no data".to_string()) },
    ];
    assert_eq!(g.on_tool_results(&set, &arrivals), Some(GenerationAction::CallModel));
    match g.messages.last().unwrap() {
        CoreMessage::Tool(m) => {
            assert_eq!(m.content.len(), 2);
            assert_eq!(m.content[0].tool_call_id, "first");
            assert_eq!(m.content[0].result, "no data");
            assert_eq!(m.content[0].is_error, Some(true));
            assert_eq!(m.content[1].tool_call_id, "second");
            assert_eq!(m.content[1].result, "noon");
            assert_eq!(m.content[1].is_error, Some(false));
        }
        other => panic!("unexpected {:?}", other),
    }
}

#[test]
fn missing_tool_is_reported_not_fatal() {
    let set = tools(&["weather"]);
    let mut g = start(2);
    let step = StepResult::from_response(
        response("", LanguageModelFinishReason::ToolCalls, vec![call("x", "stocks")], usage(0, 0, 0)),
        StepType::Initial,
    );
    assert_eq!(g.on_step(step), GenerationAction::ResolveTools);
    let arrivals = vec![ToolArrival { index: 0, outcome: ToolOutcome::Returned("ignored".to_string()) }];
    assert_eq!(g.on_tool_results(&set, &arrivals), Some(GenerationAction::CallModel));
    match g.messages.last().unwrap() {
        CoreMessage::Tool(m) => {
            assert_eq!(m.content[0].result, "tool not found");
            assert_eq!(m.content[0].is_error, Some(true));
            assert_eq!(m.content[0].tool_name, "stocks");
        }
        other => panic!("unexpected {:?}", other),
    }
}

#[test]
fn malformed_arrivals_are_refused() {
    let set = tools(&["weather"]);
    let mut g = start(3);
    let step = StepResult::from_response(
        response("", LanguageModelFinishReason::ToolCalls, vec![call("a", "weather"), call("b", "weather")], usage(0, 0, 0)),
        StepType::Initial,
    );
    g.on_step(step);
    let dup = vec![
        ToolArrival { index: 0, outcome: ToolOutcome::Returned("1".to_string()) },
        ToolArrival { index: 0, outcome: ToolOutcome::Returned("2".to_string()) },
    ];
    assert_eq!(g.on_tool_results(&set, &dup), None);
    let short = vec![ToolArrival { index: 1, outcome: ToolOutcome::Returned("1".to_string()) }];
    assert_eq!(g.on_tool_results(&set, &short), None);
    let out_of_range = vec![
        ToolArrival { index: 0, outcome: ToolOutcome::Returned("1".to_string()) },
        ToolArrival { index: 2, outcome: ToolOutcome::Returned("2".to_string()) },
    ];
    assert_eq!(g.on_tool_results(&set, &out_of_range), None);
    assert_eq!(g.phase, GenerationPhase::ResolvingTools);
    assert_eq!(g.messages.len(), 2);
}

#[test]
fn stop_with_calls_does_not_resolve() {
    let mut g = start(5);
    let step = StepResult::from_response(
        response("ok", LanguageModelFinishReason::Stop, vec![call("a", "weather")], usage(0, 0, 0)),
        StepType::Initial,
    );
    assert_eq!(g.on_step(step), GenerationAction::Finish);
    let mut g = start(5);
    let step = StepResult::from_response(
        response("", LanguageModelFinishReason::ToolCalls, vec![], usage(0, 0, 0)),
        StepType::Initial,
    );
    assert_eq!(g.on_step(step), GenerationAction::Finish);
}

#[test]
fn start_rejects_bad_options() {
    let zero_steps = GenerateTextOptions::default().prompt("x".to_string()).max_steps(0);
    assert!(matches!(Generation::start(zero_steps), Err(ModelError::InvalidArgument(_))));
    let no_prompt = GenerateTextOptions::default();
    assert!(matches!(Generation::start(no_prompt), Err(ModelError::InvalidPrompt(_))));
    let mut no_tokens = GenerateTextOptions::default().prompt("x".to_string());
    no_tokens.call_settings.max_tokens = 0;
    assert!(matches!(Generation::start(no_tokens), Err(ModelError::InvalidArgument(_))));
    let empty = GenerateTextOptions::default().messages(vec![]);
    assert!(matches!(Generation::start(empty), Err(ModelError::InvalidPrompt(_))));
}

#[test]
fn request_carries_conversation() {
    let g = start(1);
    let r = g.request();
    assert_eq!(r.prompt.len(), 1);
    assert_eq!(r.system.map(|s| s.as_str()), Some("You are a helpful assistant."));
    assert_eq!(r.call_settings.max_tokens, 2056);
}

#[test]
fn warnings_accumulate_and_failure_keeps_partial_on_request() {
    let set = tools(&["weather"]);
    let mut options = GenerateTextOptions::default().prompt("x".to_string()).max_steps(3);
    options.partial_results_on_failure = true;
    let mut g = Generation::start(options).unwrap();
    let mut first = response("", LanguageModelFinishReason::ToolCalls, vec![call("a", "weather")], usage(3, 4, 7));
    first.warnings = vec![LanguageModelCallWarning::Other { message: "careful".to_string() }];
    g.on_step(StepResult::from_response(first, StepType::Initial));
    g.on_tool_results(&set, &vec![ToolArrival { index: 0, outcome: ToolOutcome::Returned("r".to_string()) }]);
    assert_eq!(g.warnings.len(), 1);
    let err = RetryError {
        last_error: ModelError::InternalError("x".to_string()),
        attempts: 3,
        max_retries: 2,
        budget_exhausted: true,
    };
    let failure = g.fail(err);
    let partial = failure.partial.unwrap();
    assert_eq!(partial.steps.len(), 1);
    assert_eq!(partial.usage, usage(3, 4, 7));
    assert_eq!(failure.error.attempts, 3);

    let g = start(2);
    let err = RetryError {
        last_error: ModelError::InternalError("x".to_string()),
        attempts: 1,
        max_retries: 0,
        budget_exhausted: true,
    };
    assert!(g.fail(err).partial.is_none());
}

#[test]
fn register_refuses_taken_names() {
    let mut set = tools(&["a"]);
    assert!(!set.register("a".to_string(), Tool { description: None, parameters: String::new() }));
    assert_eq!(set.find(&"a".to_string()), Some(0));
    assert_eq!(set.find(&"b".to_string()), None);
}
