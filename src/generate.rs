use vstd::prelude::*;
use crate::content::{AssistantContent, AssistantContentParts, ToolCallPart, ToolResultPart};
use crate::error::ModelError;
use crate::message::{CoreAssistantMessage, CoreMessage, CoreToolMessage};
use crate::model::{
    usage_sum, zero_usage, GeneratedFile, LanguageModelCallWarning,
    LanguageModelDoGenerateRequest, LanguageModelDoGenerateRequestInputFormat,
    LanguageModelFinishReason, LanguageModelSource, LanguageModelUsage, StepResult, StepType,
};
use crate::prompt::{prompt_is_valid, user_text_message, Prompt, StandardizedPrompt, StandardizedPromptKind};
use crate::retry::RetryError;
use crate::settings::{normalized_stop_sequences, LanguageModelCallSettings, DEFAULT_MAX_RETRIES, DEFAULT_MAX_TOKENS};
use crate::tool::{assemble_tool_results, expected_results, is_arrangement, ToolArrival, ToolSet};

verus! {

/// Options of one text generation.
#[derive(Debug)]
pub struct GenerateTextOptions {
    pub prompt: Prompt,
    /// Upper bound on the number of model calls; at least 1.
    pub max_steps: usize,
    pub call_settings: LanguageModelCallSettings,
    /// Whether a failed generation hands back the steps completed before it.
    pub partial_results_on_failure: bool,
}

impl Default for GenerateTextOptions {
    fn default() -> (r: Self)
        ensures
            r.prompt.system is None,
            r.prompt.prompt is None,
            r.prompt.messages is None,
            r.max_steps == 1,
            r.call_settings.max_tokens == DEFAULT_MAX_TOKENS,
            r.call_settings.max_retries == DEFAULT_MAX_RETRIES,
            !r.partial_results_on_failure,
    {
        GenerateTextOptions {
            prompt: Prompt { system: None, prompt: None, messages: None },
            max_steps: 1,
            call_settings: LanguageModelCallSettings::default(),
            partial_results_on_failure: false,
        }
    }
}

impl GenerateTextOptions {
    pub fn system(self, system: String) -> (r: Self)
        ensures
            r.prompt.system == Some(system),
            r.prompt.prompt == self.prompt.prompt,
            r.prompt.messages == self.prompt.messages,
            r.max_steps == self.max_steps,
            r.call_settings == self.call_settings,
            r.partial_results_on_failure == self.partial_results_on_failure,
    {
        let GenerateTextOptions { prompt, max_steps, call_settings, partial_results_on_failure } = self;
        let Prompt { system: _, prompt: text, messages } = prompt;
        GenerateTextOptions {
            prompt: Prompt { system: Some(system), prompt: text, messages },
            max_steps,
            call_settings,
            partial_results_on_failure,
        }
    }

    pub fn prompt(self, text: String) -> (r: Self)
        ensures
            r.prompt.system == self.prompt.system,
            r.prompt.prompt == Some(text),
            r.prompt.messages == self.prompt.messages,
            r.max_steps == self.max_steps,
            r.call_settings == self.call_settings,
            r.partial_results_on_failure == self.partial_results_on_failure,
    {
        let GenerateTextOptions { prompt, max_steps, call_settings, partial_results_on_failure } = self;
        let Prompt { system, prompt: _, messages } = prompt;
        GenerateTextOptions {
            prompt: Prompt { system, prompt: Some(text), messages },
            max_steps,
            call_settings,
            partial_results_on_failure,
        }
    }

    pub fn messages(self, messages: Vec<CoreMessage>) -> (r: Self)
        ensures
            r.prompt.system == self.prompt.system,
            r.prompt.prompt == self.prompt.prompt,
            r.prompt.messages == Some(messages),
            r.max_steps == self.max_steps,
            r.call_settings == self.call_settings,
            r.partial_results_on_failure == self.partial_results_on_failure,
    {
        let GenerateTextOptions { prompt, max_steps, call_settings, partial_results_on_failure } = self;
        let Prompt { system, prompt: text, messages: _ } = prompt;
        GenerateTextOptions {
            prompt: Prompt { system, prompt: text, messages: Some(messages) },
            max_steps,
            call_settings,
            partial_results_on_failure,
        }
    }

    pub fn max_steps(self, max_steps: usize) -> (r: Self)
        ensures
            r.prompt == self.prompt,
            r.max_steps == max_steps,
            r.call_settings == self.call_settings,
            r.partial_results_on_failure == self.partial_results_on_failure,
    {
        GenerateTextOptions { max_steps, ..self }
    }
}

/// Where a generation stands.
#[derive(Debug, Clone, Copy, PartialEq, Eq, Structural)]
pub enum GenerationPhase {
    AwaitingStep,
    ResolvingTools,
    Done,
}

/// What the driver of a generation is to do next.
#[derive(Debug, Clone, Copy, PartialEq, Eq, Structural)]
pub enum GenerationAction {
    /// Call the model with `request()`, under the retry policy, and report
    /// the step with `on_step`.
    CallModel,
    /// Run the tools of `pending` and report their outcomes with
    /// `on_tool_results`.
    ResolveTools,
    /// Take the result with `finish`.
    Finish,
}

/// The aggregated result of a generation.
#[derive(Debug)]
pub struct GenerateTextResult {
    pub text: String,
    pub finish_reason: LanguageModelFinishReason,
    pub usage: LanguageModelUsage,
    pub steps: Vec<StepResult>,
    pub warnings: Vec<LanguageModelCallWarning>,
    pub sources: Vec<LanguageModelSource>,
    pub files: Vec<GeneratedFile>,
    /// The whole conversation: the prompt, then the tool calls and tool
    /// results of every round.
    pub messages: Vec<CoreMessage>,
}

/// A failed generation: the error, and the completed steps if they were asked
/// for.
#[derive(Debug)]
pub struct GenerationFailure {
    pub error: RetryError,
    pub partial: Option<GenerateTextResult>,
}

/// One generation in progress: the conversation so far and the accumulated
/// outcome of its steps.
#[derive(Debug)]
pub struct Generation {
    pub system: Option<String>,
    pub input_format: LanguageModelDoGenerateRequestInputFormat,
    pub messages: Vec<CoreMessage>,
    pub settings: LanguageModelCallSettings,
    pub max_steps: usize,
    pub partial_results_on_failure: bool,
    pub steps: Vec<StepResult>,
    pub usage: LanguageModelUsage,
    pub text: String,
    pub finish_reason: LanguageModelFinishReason,
    pub warnings: Vec<LanguageModelCallWarning>,
    pub sources: Vec<LanguageModelSource>,
    pub files: Vec<GeneratedFile>,
    /// The tool calls of the last step, while they are being resolved.
    pub pending: Vec<ToolCallPart>,
    pub phase: GenerationPhase,
    pub next_step_type: StepType,
}

/// The usage of a sequence of steps: the element-wise sum of theirs.
pub open spec fn total_usage(steps: Seq<StepResult>) -> LanguageModelUsage
    decreases steps.len(),
{
    if steps.len() == 0 {
        zero_usage()
    } else {
        usage_sum(total_usage(steps.drop_last()), steps.last().usage)
    }
}

pub open spec fn all_warnings(steps: Seq<StepResult>) -> Seq<LanguageModelCallWarning>
    decreases steps.len(),
{
    if steps.len() == 0 {
        Seq::empty()
    } else {
        all_warnings(steps.drop_last()) + steps.last().warnings@
    }
}

pub open spec fn all_sources(steps: Seq<StepResult>) -> Seq<LanguageModelSource>
    decreases steps.len(),
{
    if steps.len() == 0 {
        Seq::empty()
    } else {
        all_sources(steps.drop_last()) + steps.last().sources@
    }
}

pub open spec fn all_files(steps: Seq<StepResult>) -> Seq<GeneratedFile>
    decreases steps.len(),
{
    if steps.len() == 0 {
        Seq::empty()
    } else {
        all_files(steps.drop_last()) + steps.last().files@
    }
}

/// Whether a step asks for another round: it stopped for tool calls, named
/// at least one, and the step budget is not spent once it is counted.
pub open spec fn continues_with_tools(step: StepResult, steps_done: nat, max_steps: nat) -> bool {
    step.finish_reason == LanguageModelFinishReason::ToolCalls && step.tool_calls@.len() > 0
        && steps_done < max_steps
}

/// The assistant message that records the tool calls of a step.
pub open spec fn is_tool_call_message(m: CoreMessage, calls: Seq<ToolCallPart>) -> bool {
    &&& m is Assistant
    &&& m->Assistant_0.content is Parts
    &&& m->Assistant_0.content->Parts_0@ == calls.map_values(
        |c: ToolCallPart| AssistantContentParts::ToolCall(c),
    )
}

/// The tool message that carries the results of a step's tool calls.
pub open spec fn is_tool_result_message(
    m: CoreMessage,
    tools: ToolSet,
    calls: Seq<ToolCallPart>,
    arrivals: Seq<ToolArrival>,
) -> bool {
    &&& m is Tool
    &&& m->Tool_0.content@.map_values(|p: ToolResultPart| p@) == expected_results(tools, calls, arrivals)
}

/// Whether `start` accepts the options.
pub open spec fn options_are_valid(o: GenerateTextOptions) -> bool {
    o.max_steps >= 1 && prompt_is_valid(o.prompt) && o.call_settings.max_tokens >= 1
}

fn extend_warnings(dst: &mut Vec<LanguageModelCallWarning>, src: &Vec<LanguageModelCallWarning>)
    ensures
        final(dst)@ == old(dst)@ + src@,
{
    let mut k: usize = 0;
    while k < src.len()
        invariant
            0 <= k <= src@.len(),
            dst@ == old(dst)@ + src@.subrange(0, k as int),
        decreases src@.len() - k,
    {
        dst.push(src[k].clone());
        proof {
            assert(src@.subrange(0, k + 1) == src@.subrange(0, k as int).push(src@[k as int]));
        }
        k = k + 1;
    }
    proof {
        assert(src@.subrange(0, src@.len() as int) == src@);
    }
}

fn extend_sources(dst: &mut Vec<LanguageModelSource>, src: &Vec<LanguageModelSource>)
    ensures
        final(dst)@ == old(dst)@ + src@,
{
    let mut k: usize = 0;
    while k < src.len()
        invariant
            0 <= k <= src@.len(),
            dst@ == old(dst)@ + src@.subrange(0, k as int),
        decreases src@.len() - k,
    {
        dst.push(src[k].clone());
        proof {
            assert(src@.subrange(0, k + 1) == src@.subrange(0, k as int).push(src@[k as int]));
        }
        k = k + 1;
    }
    proof {
        assert(src@.subrange(0, src@.len() as int) == src@);
    }
}

fn extend_files(dst: &mut Vec<GeneratedFile>, src: &Vec<GeneratedFile>)
    ensures
        final(dst)@ == old(dst)@ + src@,
{
    let mut k: usize = 0;
    while k < src.len()
        invariant
            0 <= k <= src@.len(),
            dst@ == old(dst)@ + src@.subrange(0, k as int),
        decreases src@.len() - k,
    {
        dst.push(src[k].clone());
        proof {
            assert(src@.subrange(0, k + 1) == src@.subrange(0, k as int).push(src@[k as int]));
        }
        k = k + 1;
    }
    proof {
        assert(src@.subrange(0, src@.len() as int) == src@);
    }
}

impl Generation {
    /// The invariant of a generation in progress.
    pub open spec fn wf(&self) -> bool {
        &&& self.max_steps >= 1
        &&& self.steps@.len() <= self.max_steps
        &&& self.usage == total_usage(self.steps@)
        &&& self.warnings@ == all_warnings(self.steps@)
        &&& self.sources@ == all_sources(self.steps@)
        &&& self.files@ == all_files(self.steps@)
        &&& self.steps@.len() > 0 ==> {
            &&& self.finish_reason == self.steps@.last().finish_reason
            &&& self.text == self.steps@.last().text
        }
        &&& self.phase == GenerationPhase::AwaitingStep ==> self.steps@.len() < self.max_steps
        &&& self.phase == GenerationPhase::ResolvingTools ==> {
            &&& self.steps@.len() < self.max_steps
            &&& self.pending@.len() > 0
        }
    }

    /// Starts a generation: checks the step budget, standardizes the prompt
    /// and validates the call settings, in that order.
    pub fn start(options: GenerateTextOptions) -> (r: Result<Generation, ModelError>)
        ensures
            r is Ok <==> options_are_valid(options),
            options.max_steps < 1 ==> r is Err && r->Err_0 is InvalidArgument,
            options.max_steps >= 1 && !prompt_is_valid(options.prompt) ==> r is Err
                && r->Err_0 is InvalidPrompt,
            options.max_steps >= 1 && prompt_is_valid(options.prompt)
                && options.call_settings.max_tokens < 1 ==> r is Err && r->Err_0 is InvalidArgument,
            r is Ok ==> {
                let g = r->Ok_0;
                &&& g.wf()
                &&& g.phase == GenerationPhase::AwaitingStep
                &&& g.next_step_type == StepType::Initial
                &&& g.steps@.len() == 0
                &&& g.usage == zero_usage()
                &&& g.max_steps == options.max_steps
                &&& g.system == options.prompt.system
                &&& g.partial_results_on_failure == options.partial_results_on_failure
                &&& g.text@.len() == 0
                &&& g.finish_reason == LanguageModelFinishReason::Unknown
                &&& g.pending@.len() == 0
                &&& g.settings.max_tokens == options.call_settings.max_tokens
                &&& g.settings.max_retries == options.call_settings.max_retries
                &&& g.settings.stop_sequences == normalized_stop_sequences(options.call_settings.stop_sequences)
                &&& options.prompt.messages is Some ==> {
                    &&& g.messages == options.prompt.messages->Some_0
                    &&& g.input_format == LanguageModelDoGenerateRequestInputFormat::Messages
                }
                &&& options.prompt.prompt is Some ==> {
                    &&& g.messages@ == seq![user_text_message(options.prompt.prompt->Some_0)]
                    &&& g.input_format == LanguageModelDoGenerateRequestInputFormat::Prompt
                }
            },
    {
        let GenerateTextOptions { prompt, max_steps, call_settings, partial_results_on_failure } = options;
        if max_steps < 1 {
            return Err(ModelError::InvalidArgument("a generation requires at least 1 step".to_owned()));
        }
        let standardized = match StandardizedPrompt::try_from(prompt) {
            Ok(s) => s,
            Err(e) => {
                return Err(e);
            },
        };
        let mut settings = call_settings;
        match settings.prepare() {
            Ok(()) => {},
            Err(e) => {
                return Err(e);
            },
        }
        let StandardizedPrompt { kind, system, messages } = standardized;
        let input_format = match kind {
            StandardizedPromptKind::Prompt => LanguageModelDoGenerateRequestInputFormat::Prompt,
            StandardizedPromptKind::Messages => LanguageModelDoGenerateRequestInputFormat::Messages,
        };
        let g = Generation {
            system,
            input_format,
            messages,
            settings,
            max_steps,
            partial_results_on_failure,
            steps: Vec::new(),
            usage: LanguageModelUsage::default(),
            text: String::new(),
            finish_reason: LanguageModelFinishReason::default(),
            warnings: Vec::new(),
            sources: Vec::new(),
            files: Vec::new(),
            pending: Vec::new(),
            phase: GenerationPhase::AwaitingStep,
            next_step_type: StepType::Initial,
        };
        proof {
            assert(g.warnings@ == all_warnings(g.steps@));
            assert(g.sources@ == all_sources(g.steps@));
            assert(g.files@ == all_files(g.steps@));
        }
        Ok(g)
    }

    /// The model call of the next step, over the conversation so far.
    pub fn request(&self) -> (r: LanguageModelDoGenerateRequest<'_>)
        ensures
            r.prompt@ == self.messages@,
            *r.call_settings == self.settings,
            r.input_format == self.input_format,
            r.system is Some <==> self.system is Some,
            r.system is Some ==> *r.system->Some_0 == self.system->Some_0,
    {
        LanguageModelDoGenerateRequest {
            call_settings: &self.settings,
            input_format: self.input_format,
            system: self.system.as_ref(),
            prompt: self.messages.as_slice(),
        }
    }

    /// Folds a completed step into the generation and decides what follows:
    /// another round when the step stopped for tool calls and the step budget
    /// allows one, the end otherwise.
    pub fn on_step(&mut self, step: StepResult) -> (r: GenerationAction)
        requires
            old(self).wf(),
            old(self).phase == GenerationPhase::AwaitingStep,
        ensures
            final(self).wf(),
            final(self).steps@ == old(self).steps@.push(step),
            final(self).usage == usage_sum(old(self).usage, step.usage),
            final(self).text == step.text,
            final(self).finish_reason == step.finish_reason,
            final(self).max_steps == old(self).max_steps,
            final(self).system == old(self).system,
            final(self).settings == old(self).settings,
            final(self).input_format == old(self).input_format,
            final(self).partial_results_on_failure == old(self).partial_results_on_failure,
            continues_with_tools(step, old(self).steps@.len() + 1, old(self).max_steps as nat) ==> {
                &&& r == GenerationAction::ResolveTools
                &&& final(self).phase == GenerationPhase::ResolvingTools
                &&& final(self).pending@ == step.tool_calls@
                &&& final(self).messages@.len() == old(self).messages@.len() + 1
                &&& final(self).messages@.drop_last() == old(self).messages@
                &&& is_tool_call_message(final(self).messages@.last(), step.tool_calls@)
            },
            !continues_with_tools(step, old(self).steps@.len() + 1, old(self).max_steps as nat) ==> {
                &&& r == GenerationAction::Finish
                &&& final(self).phase == GenerationPhase::Done
                &&& final(self).messages == old(self).messages
            },
    {
        let ghost old_steps = self.steps@;
        self.usage = self.usage.add(&step.usage);
        self.text = step.text.clone();
        self.finish_reason = step.finish_reason;
        extend_warnings(&mut self.warnings, &step.warnings);
        extend_sources(&mut self.sources, &step.sources);
        extend_files(&mut self.files, &step.files);
        let more = step.finish_reason == LanguageModelFinishReason::ToolCalls && step.tool_calls.len() > 0
            && self.steps.len() + 1 < self.max_steps;
        if more {
            let mut parts: Vec<AssistantContentParts> = Vec::new();
            let mut pending: Vec<ToolCallPart> = Vec::new();
            let mut i: usize = 0;
            while i < step.tool_calls.len()
                invariant
                    0 <= i <= step.tool_calls@.len(),
                    pending@ == step.tool_calls@.subrange(0, i as int),
                    parts@ == step.tool_calls@.subrange(0, i as int).map_values(
                        |c: ToolCallPart| AssistantContentParts::ToolCall(c),
                    ),
                decreases step.tool_calls@.len() - i,
            {
                let call = step.tool_calls[i].clone();
                parts.push(AssistantContentParts::ToolCall(call.clone()));
                pending.push(call);
                proof {
                    assert(step.tool_calls@.subrange(0, i + 1) == step.tool_calls@.subrange(
                        0,
                        i as int,
                    ).push(step.tool_calls@[i as int]));
                }
                i = i + 1;
            }
            proof {
                assert(step.tool_calls@.subrange(0, step.tool_calls@.len() as int) == step.tool_calls@);
            }
            self.messages.push(
                CoreMessage::Assistant(CoreAssistantMessage { content: AssistantContent::Parts(parts) }),
            );
            self.pending = pending;
            self.phase = GenerationPhase::ResolvingTools;
            self.steps.push(step);
            proof {
                assert(self.steps@.drop_last() == old_steps);
                assert(self.messages@.drop_last() == old(self).messages@);
            }
            GenerationAction::ResolveTools
        } else {
            self.phase = GenerationPhase::Done;
            self.steps.push(step);
            proof {
                assert(self.steps@.drop_last() == old_steps);
            }
            GenerationAction::Finish
        }
    }

    /// Takes the outcomes of the pending tool calls, in whatever order they
    /// came in, appends one tool message with their results in the order of
    /// the calls, and asks for the next step. Outcomes that do not give
    /// exactly one per call are refused and change nothing.
    pub fn on_tool_results(&mut self, tools: &ToolSet, arrivals: &Vec<ToolArrival>) -> (r: Option<
        GenerationAction,
    >)
        requires
            old(self).wf(),
            old(self).phase == GenerationPhase::ResolvingTools,
        ensures
            final(self).wf(),
            r is Some <==> is_arrangement(arrivals@, old(self).pending@.len()),
            r is None ==> *final(self) == *old(self),
            r is Some ==> {
                &&& r->Some_0 == GenerationAction::CallModel
                &&& final(self).phase == GenerationPhase::AwaitingStep
                &&& final(self).next_step_type == StepType::ToolResult
                &&& final(self).steps == old(self).steps
                &&& final(self).usage == old(self).usage
                &&& final(self).max_steps == old(self).max_steps
                &&& final(self).pending@.len() == 0
                &&& final(self).messages@.len() == old(self).messages@.len() + 1
                &&& final(self).messages@.drop_last() == old(self).messages@
                &&& is_tool_result_message(
                    final(self).messages@.last(),
                    *tools,
                    old(self).pending@,
                    arrivals@,
                )
            },
    {
        match assemble_tool_results(tools, &self.pending, arrivals) {
            None => None,
            Some(parts) => {
                self.messages.push(CoreMessage::Tool(CoreToolMessage { content: parts }));
                self.pending = Vec::new();
                self.phase = GenerationPhase::AwaitingStep;
                self.next_step_type = StepType::ToolResult;
                proof {
                    assert(self.messages@.drop_last() == old(self).messages@);
                }
                Some(GenerationAction::CallModel)
            },
        }
    }

    /// The aggregated result of a finished generation.
    pub fn finish(self) -> (r: GenerateTextResult)
        requires
            self.wf(),
        ensures
            r.text == self.text,
            r.finish_reason == self.finish_reason,
            r.usage == self.usage,
            r.usage == total_usage(self.steps@),
            r.steps == self.steps,
            r.warnings@ == all_warnings(self.steps@),
            r.sources@ == all_sources(self.steps@),
            r.files@ == all_files(self.steps@),
            r.messages == self.messages,
    {
        GenerateTextResult {
            text: self.text,
            finish_reason: self.finish_reason,
            usage: self.usage,
            steps: self.steps,
            warnings: self.warnings,
            sources: self.sources,
            files: self.files,
            messages: self.messages,
        }
    }

    /// Aborts the generation on a step that failed for good. The failed step
    /// is never merged; the completed ones are handed back only when the
    /// options asked for partial results.
    pub fn fail(self, error: RetryError) -> (r: GenerationFailure)
        requires
            self.wf(),
        ensures
            r.error == error,
            r.partial is Some <==> self.partial_results_on_failure,
            r.partial is Some ==> {
                let p = r.partial->Some_0;
                &&& p.steps == self.steps
                &&& p.usage == self.usage
                &&& p.text == self.text
                &&& p.finish_reason == self.finish_reason
            },
    {
        if self.partial_results_on_failure {
            GenerationFailure { error, partial: Some(self.finish()) }
        } else {
            GenerationFailure { error, partial: None }
        }
    }
}

} // verus!
