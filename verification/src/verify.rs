//! Event stream verification: a state machine that checks that an AG-UI
//! event stream follows the protocol.
//!
//! It tracks the active text messages, tool calls and steps, the run state
//! and the thinking state, and rejects events that break the sequence rules.

use crate::event::{Event, EventType, spec_event_type};
use crate::text::{
    contains_text, debug_list, debug_list_text, lemma_push_no_duplicates,
    lemma_remove_value_no_duplicates, push_text, remove_text, texts,
};
use vstd::prelude::*;

verus! {

/// Errors of the AG-UI client.
#[derive(Debug, PartialEq)]
pub enum AgUiClientError {
    /// An execution error with a message.
    Execution { message: String },
    /// A value that could not be read or written as JSON, with the reader's
    /// message.
    Serialization { message: String },
}

impl AgUiClientError {
    /// The error's message.
    pub fn to_string(&self) -> (r: String)
        ensures
            match self {
                AgUiClientError::Execution { message } => r@ == message@,
                AgUiClientError::Serialization { message } => r@ == message@,
            },
    {
        match self {
            AgUiClientError::Execution { message } => message.clone(),
            AgUiClientError::Serialization { message } => message.clone(),
        }
    }
}

/// The rule an event breaks.
#[derive(Debug, Clone, Copy, PartialEq, Eq, Structural)]
pub enum ViolationKind {
    AlreadyErrored,
    AlreadyFinished,
    FirstEventNotRunStarted,
    RunStillActive,
    MessageAlreadyActive,
    MessageContentWithoutStart,
    MessageEndWithoutStart,
    ToolCallAlreadyActive,
    ToolCallArgsWithoutStart,
    ToolCallEndWithoutStart,
    StepAlreadyActive,
    StepNotStarted,
    StepsStillActive,
    MessagesStillActive,
    ToolCallsStillActive,
    ThinkingAlreadyActive,
    ThinkingEndWithoutStart,
    ThinkingMessageWithoutThinking,
    ThinkingMessageAlreadyActive,
    ThinkingContentWithoutMessage,
    ThinkingEndWithoutMessage,
}

/// The name `Debug` gives an event type.
pub open spec fn event_type_name(t: EventType) -> Seq<char> {
    match t {
        EventType::TextMessageStart => "TextMessageStart"@,
        EventType::TextMessageContent => "TextMessageContent"@,
        EventType::TextMessageEnd => "TextMessageEnd"@,
        EventType::TextMessageChunk => "TextMessageChunk"@,
        EventType::ThinkingTextMessageStart => "ThinkingTextMessageStart"@,
        EventType::ThinkingTextMessageContent => "ThinkingTextMessageContent"@,
        EventType::ThinkingTextMessageEnd => "ThinkingTextMessageEnd"@,
        EventType::ToolCallStart => "ToolCallStart"@,
        EventType::ToolCallArgs => "ToolCallArgs"@,
        EventType::ToolCallEnd => "ToolCallEnd"@,
        EventType::ToolCallChunk => "ToolCallChunk"@,
        EventType::ToolCallResult => "ToolCallResult"@,
        EventType::ThinkingStart => "ThinkingStart"@,
        EventType::ThinkingEnd => "ThinkingEnd"@,
        EventType::StateSnapshot => "StateSnapshot"@,
        EventType::StateDelta => "StateDelta"@,
        EventType::MessagesSnapshot => "MessagesSnapshot"@,
        EventType::Raw => "Raw"@,
        EventType::Custom => "Custom"@,
        EventType::RunStarted => "RunStarted"@,
        EventType::RunFinished => "RunFinished"@,
        EventType::RunError => "RunError"@,
        EventType::StepStarted => "StepStarted"@,
        EventType::StepFinished => "StepFinished"@,
    }
}

/// The `Debug` name of an event type.
pub fn event_type_debug_name(t: EventType) -> (r: &'static str)
    ensures
        r@ == event_type_name(t),
{
    match t {
        EventType::TextMessageStart => "TextMessageStart",
        EventType::TextMessageContent => "TextMessageContent",
        EventType::TextMessageEnd => "TextMessageEnd",
        EventType::TextMessageChunk => "TextMessageChunk",
        EventType::ThinkingTextMessageStart => "ThinkingTextMessageStart",
        EventType::ThinkingTextMessageContent => "ThinkingTextMessageContent",
        EventType::ThinkingTextMessageEnd => "ThinkingTextMessageEnd",
        EventType::ToolCallStart => "ToolCallStart",
        EventType::ToolCallArgs => "ToolCallArgs",
        EventType::ToolCallEnd => "ToolCallEnd",
        EventType::ToolCallChunk => "ToolCallChunk",
        EventType::ToolCallResult => "ToolCallResult",
        EventType::ThinkingStart => "ThinkingStart",
        EventType::ThinkingEnd => "ThinkingEnd",
        EventType::StateSnapshot => "StateSnapshot",
        EventType::StateDelta => "StateDelta",
        EventType::MessagesSnapshot => "MessagesSnapshot",
        EventType::Raw => "Raw",
        EventType::Custom => "Custom",
        EventType::RunStarted => "RunStarted",
        EventType::RunFinished => "RunFinished",
        EventType::RunError => "RunError",
        EventType::StepStarted => "StepStarted",
        EventType::StepFinished => "StepFinished",
    }
}

/// The message reported for a broken rule; `detail` is the event type name,
/// the id, the step name or the list of still-active items.
pub open spec fn violation_text(kind: ViolationKind, detail: Seq<char>) -> Seq<char> {
    match kind {
        ViolationKind::AlreadyErrored => "Cannot send event type '"@ + detail
            + "': The run has already errored with 'RUN_ERROR'. No further events can be sent."@,
        ViolationKind::AlreadyFinished => "Cannot send event type '"@ + detail
            + "': The run has already finished with 'RUN_FINISHED'. Start a new run with 'RUN_STARTED'."@,
        ViolationKind::FirstEventNotRunStarted => "First event must be 'RUN_STARTED'"@,
        ViolationKind::RunStillActive => "Cannot send 'RUN_STARTED' while a run is still active. The previous run must be finished with 'RUN_FINISHED' before starting a new run."@,
        ViolationKind::MessageAlreadyActive => "Cannot send 'TEXT_MESSAGE_START' event: A text message with ID '"@
            + detail + "' is already in progress. Complete it with 'TEXT_MESSAGE_END' first."@,
        ViolationKind::MessageContentWithoutStart => "Cannot send 'TEXT_MESSAGE_CONTENT' event: No active text message found with ID '"@
            + detail + "'. Start a text message with 'TEXT_MESSAGE_START' first."@,
        ViolationKind::MessageEndWithoutStart => "Cannot send 'TEXT_MESSAGE_END' event: No active text message found with ID '"@
            + detail + "'. A 'TEXT_MESSAGE_START' event must be sent first."@,
        ViolationKind::ToolCallAlreadyActive => "Cannot send 'TOOL_CALL_START' event: A tool call with ID '"@
            + detail + "' is already in progress. Complete it with 'TOOL_CALL_END' first."@,
        ViolationKind::ToolCallArgsWithoutStart => "Cannot send 'TOOL_CALL_ARGS' event: No active tool call found with ID '"@
            + detail + "'. Start a tool call with 'TOOL_CALL_START' first."@,
        ViolationKind::ToolCallEndWithoutStart => "Cannot send 'TOOL_CALL_END' event: No active tool call found with ID '"@
            + detail + "'. A 'TOOL_CALL_START' event must be sent first."@,
        ViolationKind::StepAlreadyActive => "Step \""@ + detail + "\" is already active for 'STEP_STARTED'"@,
        ViolationKind::StepNotStarted => "Cannot send 'STEP_FINISHED' for step \""@ + detail
            + "\" that was not started"@,
        ViolationKind::StepsStillActive => "Cannot send 'RUN_FINISHED' while steps are still active: "@
            + detail,
        ViolationKind::MessagesStillActive => "Cannot send 'RUN_FINISHED' while text messages are still active: "@
            + detail,
        ViolationKind::ToolCallsStillActive => "Cannot send 'RUN_FINISHED' while tool calls are still active: "@
            + detail,
        ViolationKind::ThinkingAlreadyActive => "Cannot send 'THINKING_START' event: A thinking step is already in progress. End it with 'THINKING_END' first."@,
        ViolationKind::ThinkingEndWithoutStart => "Cannot send 'THINKING_END' event: No active thinking step found. A 'THINKING_START' event must be sent first."@,
        ViolationKind::ThinkingMessageWithoutThinking => "Cannot send 'THINKING_TEXT_MESSAGE_START' event: A thinking step is not in progress. Create one with 'THINKING_START' first."@,
        ViolationKind::ThinkingMessageAlreadyActive => "Cannot send 'THINKING_TEXT_MESSAGE_START' event: A thinking message is already in progress. Complete it with 'THINKING_TEXT_MESSAGE_END' first."@,
        ViolationKind::ThinkingContentWithoutMessage => "Cannot send 'THINKING_TEXT_MESSAGE_CONTENT' event: No active thinking message found. Start a message with 'THINKING_TEXT_MESSAGE_START' first."@,
        ViolationKind::ThinkingEndWithoutMessage => "Cannot send 'THINKING_TEXT_MESSAGE_END' event: No active thinking message found. A 'THINKING_TEXT_MESSAGE_START' event must be sent first."@,
    }
}

/// Builds the error for a broken rule.
pub fn violation(kind: ViolationKind, detail: &str) -> (r: AgUiClientError)
    ensures
        r matches AgUiClientError::Execution { message } && message@ == violation_text(kind, detail@),
{
    let message = match kind {
        ViolationKind::AlreadyErrored => {
            let mut m = String::from_str("Cannot send event type '");
            m.append(detail);
            m.append("': The run has already errored with 'RUN_ERROR'. No further events can be sent.");
            m
        },
        ViolationKind::AlreadyFinished => {
            let mut m = String::from_str("Cannot send event type '");
            m.append(detail);
            m.append("': The run has already finished with 'RUN_FINISHED'. Start a new run with 'RUN_STARTED'.");
            m
        },
        ViolationKind::FirstEventNotRunStarted => String::from_str("First event must be 'RUN_STARTED'"),
        ViolationKind::RunStillActive => String::from_str("Cannot send 'RUN_STARTED' while a run is still active. The previous run must be finished with 'RUN_FINISHED' before starting a new run."),
        ViolationKind::MessageAlreadyActive => {
            let mut m = String::from_str("Cannot send 'TEXT_MESSAGE_START' event: A text message with ID '");
            m.append(detail);
            m.append("' is already in progress. Complete it with 'TEXT_MESSAGE_END' first.");
            m
        },
        ViolationKind::MessageContentWithoutStart => {
            let mut m = String::from_str("Cannot send 'TEXT_MESSAGE_CONTENT' event: No active text message found with ID '");
            m.append(detail);
            m.append("'. Start a text message with 'TEXT_MESSAGE_START' first.");
            m
        },
        ViolationKind::MessageEndWithoutStart => {
            let mut m = String::from_str("Cannot send 'TEXT_MESSAGE_END' event: No active text message found with ID '");
            m.append(detail);
            m.append("'. A 'TEXT_MESSAGE_START' event must be sent first.");
            m
        },
        ViolationKind::ToolCallAlreadyActive => {
            let mut m = String::from_str("Cannot send 'TOOL_CALL_START' event: A tool call with ID '");
            m.append(detail);
            m.append("' is already in progress. Complete it with 'TOOL_CALL_END' first.");
            m
        },
        ViolationKind::ToolCallArgsWithoutStart => {
            let mut m = String::from_str("Cannot send 'TOOL_CALL_ARGS' event: No active tool call found with ID '");
            m.append(detail);
            m.append("'. Start a tool call with 'TOOL_CALL_START' first.");
            m
        },
        ViolationKind::ToolCallEndWithoutStart => {
            let mut m = String::from_str("Cannot send 'TOOL_CALL_END' event: No active tool call found with ID '");
            m.append(detail);
            m.append("'. A 'TOOL_CALL_START' event must be sent first.");
            m
        },
        ViolationKind::StepAlreadyActive => {
            let mut m = String::from_str("Step \"");
            m.append(detail);
            m.append("\" is already active for 'STEP_STARTED'");
            m
        },
        ViolationKind::StepNotStarted => {
            let mut m = String::from_str("Cannot send 'STEP_FINISHED' for step \"");
            m.append(detail);
            m.append("\" that was not started");
            m
        },
        ViolationKind::StepsStillActive => {
            let mut m = String::from_str("Cannot send 'RUN_FINISHED' while steps are still active: ");
            m.append(detail);
            m
        },
        ViolationKind::MessagesStillActive => {
            let mut m = String::from_str("Cannot send 'RUN_FINISHED' while text messages are still active: ");
            m.append(detail);
            m
        },
        ViolationKind::ToolCallsStillActive => {
            let mut m = String::from_str("Cannot send 'RUN_FINISHED' while tool calls are still active: ");
            m.append(detail);
            m
        },
        ViolationKind::ThinkingAlreadyActive => String::from_str("Cannot send 'THINKING_START' event: A thinking step is already in progress. End it with 'THINKING_END' first."),
        ViolationKind::ThinkingEndWithoutStart => String::from_str("Cannot send 'THINKING_END' event: No active thinking step found. A 'THINKING_START' event must be sent first."),
        ViolationKind::ThinkingMessageWithoutThinking => String::from_str("Cannot send 'THINKING_TEXT_MESSAGE_START' event: A thinking step is not in progress. Create one with 'THINKING_START' first."),
        ViolationKind::ThinkingMessageAlreadyActive => String::from_str("Cannot send 'THINKING_TEXT_MESSAGE_START' event: A thinking message is already in progress. Complete it with 'THINKING_TEXT_MESSAGE_END' first."),
        ViolationKind::ThinkingContentWithoutMessage => String::from_str("Cannot send 'THINKING_TEXT_MESSAGE_CONTENT' event: No active thinking message found. Start a message with 'THINKING_TEXT_MESSAGE_START' first."),
        ViolationKind::ThinkingEndWithoutMessage => String::from_str("Cannot send 'THINKING_TEXT_MESSAGE_END' event: No active thinking message found. A 'THINKING_TEXT_MESSAGE_START' event must be sent first."),
    };
    AgUiClientError::Execution { message }
}

/// The state of an event stream check.
pub struct VerifierModel {
    /// Active text message ids, in the order they started.
    pub messages: Seq<Seq<char>>,
    /// Active tool call ids, in the order they started.
    pub tool_calls: Seq<Seq<char>>,
    /// Active step names, in the order they started.
    pub steps: Seq<Seq<char>>,
    pub run_started: bool,
    pub run_finished: bool,
    pub run_error: bool,
    pub first_event_received: bool,
    pub thinking: bool,
    pub thinking_message: bool,
    pub debug: bool,
}

/// A rule broken by an event, with the detail its message names.
pub struct Violation {
    pub kind: ViolationKind,
    pub detail: Seq<char>,
}

/// The state of a fresh checker.
pub open spec fn initial_model(debug: bool) -> VerifierModel {
    VerifierModel {
        messages: Seq::empty(),
        tool_calls: Seq::empty(),
        steps: Seq::empty(),
        run_started: false,
        run_finished: false,
        run_error: false,
        first_event_received: false,
        thinking: false,
        thinking_message: false,
        debug,
    }
}

/// The state for a new run after a finished one: nothing active, the run
/// started and neither finished nor errored.
pub open spec fn reset_model(m: VerifierModel) -> VerifierModel {
    VerifierModel {
        messages: Seq::empty(),
        tool_calls: Seq::empty(),
        steps: Seq::empty(),
        thinking: false,
        thinking_message: false,
        run_finished: false,
        run_error: false,
        run_started: true,
        ..m
    }
}

/// The id or name an event is keyed by: the message id of a text message
/// event, the tool call id of a tool call event, the step name of a step
/// event.
pub open spec fn event_key<S>(e: Event<S>) -> Seq<char> {
    match e {
        Event::TextMessageStart(x) => x.message_id.text(),
        Event::TextMessageContent(x) => x.message_id.text(),
        Event::TextMessageEnd(x) => x.message_id.text(),
        Event::ToolCallStart(x) => x.tool_call_id.0@,
        Event::ToolCallArgs(x) => x.tool_call_id.0@,
        Event::ToolCallEnd(x) => x.tool_call_id.0@,
        Event::StepStarted(x) => x.step_name@,
        Event::StepFinished(x) => x.step_name@,
        _ => Seq::empty(),
    }
}

/// A rule that is broken.
pub open spec fn broken(kind: ViolationKind, detail: Seq<char>) -> Option<Violation> {
    Some(Violation { kind, detail })
}

/// The checks that come before the per-type rules: a run that errored takes
/// no more events, a finished run only a new start or an error, the first
/// event must start the run (or report an error), and a run cannot start
/// while one is active.  A start after a finished run resets the state.
pub open spec fn gate_step(m: VerifierModel, t: EventType) -> (VerifierModel, Option<Violation>) {
    if m.run_error {
        (m, broken(ViolationKind::AlreadyErrored, event_type_name(t)))
    } else if m.run_finished && t != EventType::RunError && t != EventType::RunStarted {
        (m, broken(ViolationKind::AlreadyFinished, event_type_name(t)))
    } else if !m.first_event_received {
        let m1 = VerifierModel { first_event_received: true, ..m };
        if t != EventType::RunStarted && t != EventType::RunError {
            (m1, broken(ViolationKind::FirstEventNotRunStarted, Seq::empty()))
        } else {
            (m1, None)
        }
    } else if t == EventType::RunStarted {
        if m.run_started && !m.run_finished {
            (m, broken(ViolationKind::RunStillActive, Seq::empty()))
        } else if m.run_finished {
            (reset_model(m), None)
        } else {
            (m, None)
        }
    } else {
        (m, None)
    }
}

/// The per-type rules, applied after [`gate_step`].
pub open spec fn type_step<S>(m: VerifierModel, e: Event<S>) -> (VerifierModel, Option<Violation>) {
    let k = event_key(e);
    match e {
        Event::TextMessageStart(_) => if m.messages.contains(k) {
            (m, broken(ViolationKind::MessageAlreadyActive, k))
        } else {
            (VerifierModel { messages: m.messages.push(k), ..m }, None)
        },
        Event::TextMessageContent(_) => if !m.messages.contains(k) {
            (m, broken(ViolationKind::MessageContentWithoutStart, k))
        } else {
            (m, None)
        },
        Event::TextMessageEnd(_) => if !m.messages.contains(k) {
            (m, broken(ViolationKind::MessageEndWithoutStart, k))
        } else {
            (VerifierModel { messages: m.messages.remove_value(k), ..m }, None)
        },
        Event::ToolCallStart(_) => if m.tool_calls.contains(k) {
            (m, broken(ViolationKind::ToolCallAlreadyActive, k))
        } else {
            (VerifierModel { tool_calls: m.tool_calls.push(k), ..m }, None)
        },
        Event::ToolCallArgs(_) => if !m.tool_calls.contains(k) {
            (m, broken(ViolationKind::ToolCallArgsWithoutStart, k))
        } else {
            (m, None)
        },
        Event::ToolCallEnd(_) => if !m.tool_calls.contains(k) {
            (m, broken(ViolationKind::ToolCallEndWithoutStart, k))
        } else {
            (VerifierModel { tool_calls: m.tool_calls.remove_value(k), ..m }, None)
        },
        Event::StepStarted(_) => if m.steps.contains(k) {
            (m, broken(ViolationKind::StepAlreadyActive, k))
        } else {
            (VerifierModel { steps: m.steps.push(k), ..m }, None)
        },
        Event::StepFinished(_) => if !m.steps.contains(k) {
            (m, broken(ViolationKind::StepNotStarted, k))
        } else {
            (VerifierModel { steps: m.steps.remove_value(k), ..m }, None)
        },
        Event::RunStarted(_) => (VerifierModel { run_started: true, ..m }, None),
        Event::RunFinished(_) => if m.steps.len() > 0 {
            (m, broken(ViolationKind::StepsStillActive, debug_list_text(m.steps)))
        } else if m.messages.len() > 0 {
            (m, broken(ViolationKind::MessagesStillActive, debug_list_text(m.messages)))
        } else if m.tool_calls.len() > 0 {
            (m, broken(ViolationKind::ToolCallsStillActive, debug_list_text(m.tool_calls)))
        } else {
            (VerifierModel { run_finished: true, ..m }, None)
        },
        Event::RunError(_) => (VerifierModel { run_error: true, ..m }, None),
        Event::ThinkingStart(_) => if m.thinking {
            (m, broken(ViolationKind::ThinkingAlreadyActive, Seq::empty()))
        } else {
            (VerifierModel { thinking: true, ..m }, None)
        },
        Event::ThinkingEnd(_) => if !m.thinking {
            (m, broken(ViolationKind::ThinkingEndWithoutStart, Seq::empty()))
        } else {
            (VerifierModel { thinking: false, ..m }, None)
        },
        Event::ThinkingTextMessageStart(_) => if !m.thinking {
            (m, broken(ViolationKind::ThinkingMessageWithoutThinking, Seq::empty()))
        } else if m.thinking_message {
            (m, broken(ViolationKind::ThinkingMessageAlreadyActive, Seq::empty()))
        } else {
            (VerifierModel { thinking_message: true, ..m }, None)
        },
        Event::ThinkingTextMessageContent(_) => if !m.thinking_message {
            (m, broken(ViolationKind::ThinkingContentWithoutMessage, Seq::empty()))
        } else {
            (m, None)
        },
        Event::ThinkingTextMessageEnd(_) => if !m.thinking_message {
            (m, broken(ViolationKind::ThinkingEndWithoutMessage, Seq::empty()))
        } else {
            (VerifierModel { thinking_message: false, ..m }, None)
        },
        _ => (m, None),
    }
}

/// One step of the check: the next state, and the rule the event breaks if
/// it is rejected.
pub open spec fn verify_step<S>(m: VerifierModel, e: Event<S>) -> (VerifierModel, Option<Violation>) {
    let (m1, v) = gate_step(m, spec_event_type(e));
    if v is Some {
        (m1, v)
    } else {
        type_step(m1, e)
    }
}

/// Event stream verifier for AG-UI protocol compliance.
#[derive(Debug)]
pub struct EventVerifier {
    active_messages: Vec<String>,
    active_tool_calls: Vec<String>,
    active_steps: Vec<String>,
    run_started: bool,
    run_finished: bool,
    run_error: bool,
    first_event_received: bool,
    active_thinking: bool,
    active_thinking_message: bool,
    debug: bool,
}

impl View for EventVerifier {
    type V = VerifierModel;

    closed spec fn view(&self) -> VerifierModel {
        VerifierModel {
            messages: texts(self.active_messages@),
            tool_calls: texts(self.active_tool_calls@),
            steps: texts(self.active_steps@),
            run_started: self.run_started,
            run_finished: self.run_finished,
            run_error: self.run_error,
            first_event_received: self.first_event_received,
            thinking: self.active_thinking,
            thinking_message: self.active_thinking_message,
            debug: self.debug,
        }
    }
}

/// No id or name is active twice.
pub open spec fn model_well_formed(m: VerifierModel) -> bool {
    m.messages.no_duplicates() && m.tool_calls.no_duplicates() && m.steps.no_duplicates()
}

impl EventVerifier {
    /// A fresh verifier with debug mode off.
    pub fn new() -> (r: Self)
        ensures
            r@ == initial_model(false),
    {
        let r = EventVerifier {
            active_messages: Vec::new(),
            active_tool_calls: Vec::new(),
            active_steps: Vec::new(),
            run_started: false,
            run_finished: false,
            run_error: false,
            first_event_received: false,
            active_thinking: false,
            active_thinking_message: false,
            debug: false,
        };
        proof {
            assert(texts(r.active_messages@) =~= Seq::empty());
            assert(texts(r.active_tool_calls@) =~= Seq::empty());
            assert(texts(r.active_steps@) =~= Seq::empty());
        }
        r
    }

    /// Turns debug mode on or off (in debug mode each event is logged before
    /// it is checked).
    pub fn with_debug(self, debug: bool) -> (r: Self)
        ensures
            r@ == (VerifierModel { debug, ..self@ }),
    {
        EventVerifier { debug, ..self }
    }

    /// Whether debug mode is on.
    pub fn is_debug(&self) -> (r: bool)
        ensures
            r == self@.debug,
    {
        self.debug
    }

    /// The checks that come before the per-type rules.
    fn check_gate(&mut self, t: EventType) -> (r: Result<(), AgUiClientError>)
        ensures
            final(self)@ == gate_step(old(self)@, t).0,
            match gate_step(old(self)@, t).1 {
                Some(v) => r matches Err(AgUiClientError::Execution { message }) && message@ == violation_text(
                    v.kind,
                    v.detail,
                ),
                None => r is Ok,
            },
    {
        if self.run_error {
            return Err(violation(ViolationKind::AlreadyErrored, event_type_debug_name(t)));
        }
        if self.run_finished && t != EventType::RunError && t != EventType::RunStarted {
            return Err(violation(ViolationKind::AlreadyFinished, event_type_debug_name(t)));
        }
        if !self.first_event_received {
            self.first_event_received = true;
            if t != EventType::RunStarted && t != EventType::RunError {
                return Err(violation(ViolationKind::FirstEventNotRunStarted, ""));
            }
        } else if t == EventType::RunStarted {
            if self.run_started && !self.run_finished {
                return Err(violation(ViolationKind::RunStillActive, ""));
            }
            if self.run_finished {
                self.reset_run_state();
            }
        }
        Ok(())
    }

    /// The per-type rules.
    fn check_type<S>(&mut self, event: &Event<S>) -> (r: Result<(), AgUiClientError>)
        ensures
            final(self)@ == type_step(old(self)@, *event).0,
            match type_step(old(self)@, *event).1 {
                Some(v) => r matches Err(AgUiClientError::Execution { message }) && message@ == violation_text(
                    v.kind,
                    v.detail,
                ),
                None => r is Ok,
            },
    {
        match event {
            Event::TextMessageStart(e) => {
                let key = e.message_id.to_string();
                if contains_text(&self.active_messages, &key) {
                    return Err(violation(ViolationKind::MessageAlreadyActive, key.as_str()));
                }
                push_text(&mut self.active_messages, key);
            },
            Event::TextMessageContent(e) => {
                let key = e.message_id.to_string();
                if !contains_text(&self.active_messages, &key) {
                    return Err(violation(ViolationKind::MessageContentWithoutStart, key.as_str()));
                }
            },
            Event::TextMessageEnd(e) => {
                let key = e.message_id.to_string();
                if !contains_text(&self.active_messages, &key) {
                    return Err(violation(ViolationKind::MessageEndWithoutStart, key.as_str()));
                }
                remove_text(&mut self.active_messages, &key);
            },
            Event::ToolCallStart(e) => {
                let key = e.tool_call_id.to_string();
                if contains_text(&self.active_tool_calls, &key) {
                    return Err(violation(ViolationKind::ToolCallAlreadyActive, key.as_str()));
                }
                push_text(&mut self.active_tool_calls, key);
            },
            Event::ToolCallArgs(e) => {
                let key = e.tool_call_id.to_string();
                if !contains_text(&self.active_tool_calls, &key) {
                    return Err(violation(ViolationKind::ToolCallArgsWithoutStart, key.as_str()));
                }
            },
            Event::ToolCallEnd(e) => {
                let key = e.tool_call_id.to_string();
                if !contains_text(&self.active_tool_calls, &key) {
                    return Err(violation(ViolationKind::ToolCallEndWithoutStart, key.as_str()));
                }
                remove_text(&mut self.active_tool_calls, &key);
            },
            Event::StepStarted(e) => {
                let key = e.step_name.clone();
                if contains_text(&self.active_steps, &key) {
                    return Err(violation(ViolationKind::StepAlreadyActive, key.as_str()));
                }
                push_text(&mut self.active_steps, key);
            },
            Event::StepFinished(e) => {
                let key = e.step_name.clone();
                if !contains_text(&self.active_steps, &key) {
                    return Err(violation(ViolationKind::StepNotStarted, key.as_str()));
                }
                remove_text(&mut self.active_steps, &key);
            },
            Event::RunStarted(_) => {
                self.run_started = true;
            },
            Event::RunFinished(_) => {
                if self.active_steps.len() > 0 {
                    let list = debug_list(&self.active_steps);
                    return Err(violation(ViolationKind::StepsStillActive, list.as_str()));
                }
                if self.active_messages.len() > 0 {
                    let list = debug_list(&self.active_messages);
                    return Err(violation(ViolationKind::MessagesStillActive, list.as_str()));
                }
                if self.active_tool_calls.len() > 0 {
                    let list = debug_list(&self.active_tool_calls);
                    return Err(violation(ViolationKind::ToolCallsStillActive, list.as_str()));
                }
                self.run_finished = true;
            },
            Event::RunError(_) => {
                self.run_error = true;
            },
            Event::ThinkingStart(_) => {
                if self.active_thinking {
                    return Err(violation(ViolationKind::ThinkingAlreadyActive, ""));
                }
                self.active_thinking = true;
            },
            Event::ThinkingEnd(_) => {
                if !self.active_thinking {
                    return Err(violation(ViolationKind::ThinkingEndWithoutStart, ""));
                }
                self.active_thinking = false;
            },
            Event::ThinkingTextMessageStart(_) => {
                if !self.active_thinking {
                    return Err(violation(ViolationKind::ThinkingMessageWithoutThinking, ""));
                }
                if self.active_thinking_message {
                    return Err(violation(ViolationKind::ThinkingMessageAlreadyActive, ""));
                }
                self.active_thinking_message = true;
            },
            Event::ThinkingTextMessageContent(_) => {
                if !self.active_thinking_message {
                    return Err(violation(ViolationKind::ThinkingContentWithoutMessage, ""));
                }
            },
            Event::ThinkingTextMessageEnd(_) => {
                if !self.active_thinking_message {
                    return Err(violation(ViolationKind::ThinkingEndWithoutMessage, ""));
                }
                self.active_thinking_message = false;
            },
            Event::TextMessageChunk(_)
            | Event::ToolCallChunk(_)
            | Event::ToolCallResult(_)
            | Event::StateSnapshot(_)
            | Event::StateDelta(_)
            | Event::MessagesSnapshot(_)
            | Event::Raw(_)
            | Event::Custom(_) => {},
        }
        Ok(())
    }

    /// Checks one event: `Ok` when it is valid in the current state, else
    /// the rule it breaks, as an execution error.
    pub fn verify<S>(&mut self, event: &Event<S>) -> (r: Result<(), AgUiClientError>)
        ensures
            final(self)@ == verify_step(old(self)@, *event).0,
            match verify_step(old(self)@, *event).1 {
                Some(v) => r matches Err(AgUiClientError::Execution { message }) && message@ == violation_text(
                    v.kind,
                    v.detail,
                ),
                None => r is Ok,
            },
    {
        let event_type = event.event_type();
        match self.check_gate(event_type) {
            Ok(()) => {},
            Err(e) => {
                return Err(e);
            },
        }
        self.check_type(event)
    }

    /// Resets the state for a new run after a finished one.
    fn reset_run_state(&mut self)
        ensures
            final(self)@ == reset_model(old(self)@),
    {
        self.active_messages.clear();
        self.active_tool_calls.clear();
        self.active_steps.clear();
        self.active_thinking = false;
        self.active_thinking_message = false;
        self.run_finished = false;
        self.run_error = false;
        self.run_started = true;
        proof {
            assert(texts(self.active_messages@) =~= Seq::empty());
            assert(texts(self.active_tool_calls@) =~= Seq::empty());
            assert(texts(self.active_steps@) =~= Seq::empty());
        }
    }
}

/// Every step keeps each active list free of duplicates: no message, tool
/// call or step is ever active twice.
pub proof fn lemma_step_keeps_well_formed<S>(m: VerifierModel, e: Event<S>)
    requires
        model_well_formed(m),
    ensures
        model_well_formed(verify_step(m, e).0),
{
    let (m1, v) = gate_step(m, spec_event_type(e));
    assert(model_well_formed(m1));
    if v is None {
        let k = event_key(e);
        match e {
            Event::TextMessageStart(_) => {
                if !m1.messages.contains(k) {
                    lemma_push_no_duplicates(m1.messages, k);
                }
            },
            Event::TextMessageEnd(_) => {
                lemma_remove_value_no_duplicates(m1.messages, k);
            },
            Event::ToolCallStart(_) => {
                if !m1.tool_calls.contains(k) {
                    lemma_push_no_duplicates(m1.tool_calls, k);
                }
            },
            Event::ToolCallEnd(_) => {
                lemma_remove_value_no_duplicates(m1.tool_calls, k);
            },
            Event::StepStarted(_) => {
                if !m1.steps.contains(k) {
                    lemma_push_no_duplicates(m1.steps, k);
                }
            },
            Event::StepFinished(_) => {
                lemma_remove_value_no_duplicates(m1.steps, k);
            },
            _ => {},
        }
    }
}

/// Once a run has errored, every further event is rejected and the state
/// stays as it is.
pub proof fn lemma_error_is_final<S>(m: VerifierModel, e: Event<S>)
    requires
        m.run_error,
    ensures
        verify_step(m, e).0 == m,
        verify_step(m, e).1 == broken(ViolationKind::AlreadyErrored, event_type_name(spec_event_type(e))),
{
}

/// After a finished run only a new `RUN_STARTED` or a `RUN_ERROR` is
/// accepted; any other event is rejected and changes nothing.
pub proof fn lemma_finished_run_takes_only_start_or_error<S>(m: VerifierModel, e: Event<S>)
    requires
        m.run_finished,
        !m.run_error,
        spec_event_type(e) != EventType::RunStarted,
        spec_event_type(e) != EventType::RunError,
    ensures
        verify_step(m, e).0 == m,
        verify_step(m, e).1 == broken(ViolationKind::AlreadyFinished, event_type_name(spec_event_type(e))),
{
}

/// A `RUN_FINISHED` is accepted only when no text message, tool call or step
/// is active, and it marks the run finished.
pub proof fn lemma_finish_requires_closed_streams<S>(m: VerifierModel, e: Event<S>)
    requires
        spec_event_type(e) == EventType::RunFinished,
        verify_step(m, e).1 is None,
    ensures
        m.messages.len() == 0,
        m.tool_calls.len() == 0,
        m.steps.len() == 0,
        verify_step(m, e).0.run_finished,
{
}

/// A new `RUN_STARTED` after a finished run is accepted and starts from a
/// clean state: nothing active, no thinking, the run started.
pub proof fn lemma_new_run_resets<S>(m: VerifierModel, e: Event<S>)
    requires
        spec_event_type(e) == EventType::RunStarted,
        m.run_finished,
        !m.run_error,
        m.first_event_received,
    ensures
        verify_step(m, e).1 is None,
        verify_step(m, e).0 == reset_model(m),
{
}

/// The state after checking each event of `events` in turn, and whether all
/// were accepted (checking continues after a rejection, as a stream would).
pub open spec fn verify_all<S>(m: VerifierModel, events: Seq<Event<S>>) -> (VerifierModel, bool)
    decreases events.len(),
{
    if events.len() == 0 {
        (m, true)
    } else {
        let (m1, v) = verify_step(m, events[0]);
        let (m2, ok) = verify_all(m1, events.subrange(1, events.len() as int));
        (m2, ok && v is None)
    }
}

/// The first event of a fresh stream is accepted exactly when it is
/// `RUN_STARTED` or `RUN_ERROR`; any other first event is rejected as not
/// starting the run.
pub proof fn lemma_first_event_rule<S>(debug: bool, e: Event<S>)
    ensures
        verify_step(initial_model(debug), e).1 is None <==> (spec_event_type(e) == EventType::RunStarted
            || spec_event_type(e) == EventType::RunError),
        !(spec_event_type(e) == EventType::RunStarted || spec_event_type(e) == EventType::RunError)
            ==> verify_step(initial_model(debug), e).1 == broken(ViolationKind::FirstEventNotRunStarted, Seq::empty()),
{
}

/// While a run is active (started, not finished, no error), another
/// `RUN_STARTED` is rejected and changes nothing.
pub proof fn lemma_no_restart_while_active<S>(m: VerifierModel, e: Event<S>)
    requires
        spec_event_type(e) == EventType::RunStarted,
        m.first_event_received,
        m.run_started,
        !m.run_finished,
        !m.run_error,
    ensures
        verify_step(m, e).0 == m,
        verify_step(m, e).1 == broken(ViolationKind::RunStillActive, Seq::empty()),
{
}

/// In an active run, `RUN_FINISHED` is accepted exactly when no step, text
/// message or tool call is active; otherwise it is rejected naming the
/// active steps first, then the messages, then the tool calls.
pub proof fn lemma_finish_rule<S>(m: VerifierModel, e: Event<S>)
    requires
        spec_event_type(e) == EventType::RunFinished,
        m.first_event_received,
        !m.run_finished,
        !m.run_error,
    ensures
        verify_step(m, e).1 is None <==> (m.steps.len() == 0 && m.messages.len() == 0 && m.tool_calls.len() == 0),
        m.steps.len() > 0 ==> verify_step(m, e).1 == broken(ViolationKind::StepsStillActive, debug_list_text(m.steps)),
        m.steps.len() == 0 && m.messages.len() > 0 ==> verify_step(m, e).1 == broken(
            ViolationKind::MessagesStillActive,
            debug_list_text(m.messages),
        ),
        m.steps.len() == 0 && m.messages.len() == 0 && m.tool_calls.len() > 0 ==> verify_step(m, e).1 == broken(
            ViolationKind::ToolCallsStillActive,
            debug_list_text(m.tool_calls),
        ),
{
}

/// After an accepted `RUN_ERROR` every further event is rejected as coming
/// after the error.
pub proof fn lemma_run_error_ends_stream<S, T>(m: VerifierModel, err: Event<S>, next: Event<T>)
    requires
        err is RunError,
        verify_step(m, err).1 is None,
    ensures
        verify_step(m, err).0.run_error,
        verify_step(verify_step(m, err).0, next).1 == broken(
            ViolationKind::AlreadyErrored,
            event_type_name(spec_event_type(next)),
        ),
{
}

/// After an accepted `RUN_FINISHED` only `RUN_STARTED` or `RUN_ERROR` is
/// accepted; any other event is rejected as coming after the finish.
pub proof fn lemma_run_finished_closes_run<S, T>(m: VerifierModel, fin: Event<S>, next: Event<T>)
    requires
        fin is RunFinished,
        verify_step(m, fin).1 is None,
        spec_event_type(next) != EventType::RunStarted,
        spec_event_type(next) != EventType::RunError,
    ensures
        verify_step(m, fin).0.run_finished,
        verify_step(verify_step(m, fin).0, next).1 == broken(
            ViolationKind::AlreadyFinished,
            event_type_name(spec_event_type(next)),
        ),
{
}

/// In an active run without a thinking step, a thinking message cannot
/// start.
pub proof fn lemma_thinking_message_needs_thinking<S>(m: VerifierModel, e: Event<S>)
    requires
        e is ThinkingTextMessageStart,
        m.first_event_received,
        !m.run_finished,
        !m.run_error,
        !m.thinking,
    ensures
        verify_step(m, e).1 == broken(ViolationKind::ThinkingMessageWithoutThinking, Seq::empty()),
        verify_step(m, e).0 == m,
{
}

/// After an accepted `THINKING_END` no thinking step is active, and a new
/// `THINKING_START` is accepted.
pub proof fn lemma_thinking_end_allows_new_start<S>(m: VerifierModel, end: Event<S>, start: Event<S>)
    requires
        end is ThinkingEnd,
        start is ThinkingStart,
        verify_step(m, end).1 is None,
    ensures
        !verify_step(m, end).0.thinking,
        verify_step(verify_step(m, end).0, start).1 is None,
        verify_step(verify_step(m, end).0, start).0.thinking,
{
}

/// After an accepted `THINKING_START` a thinking step is active: a second
/// start is rejected and a `THINKING_END` is accepted.
pub proof fn lemma_thinking_start_then_end<S>(m: VerifierModel, start: Event<S>, again: Event<S>, end: Event<S>)
    requires
        start is ThinkingStart,
        again is ThinkingStart,
        end is ThinkingEnd,
        verify_step(m, start).1 is None,
    ensures
        verify_step(m, start).0.thinking,
        verify_step(verify_step(m, start).0, again).1 == broken(ViolationKind::ThinkingAlreadyActive, Seq::empty()),
        verify_step(verify_step(m, start).0, end).1 is None,
{
}

/// A thinking message: after an accepted start its content and its end are
/// accepted; after an accepted end its content is rejected.
pub proof fn lemma_thinking_message_lifecycle<S>(
    m: VerifierModel,
    start: Event<S>,
    content: Event<S>,
    end: Event<S>,
)
    requires
        start is ThinkingTextMessageStart,
        content is ThinkingTextMessageContent,
        end is ThinkingTextMessageEnd,
    ensures
        verify_step(m, start).1 is None ==> verify_step(verify_step(m, start).0, content).1 is None
            && verify_step(verify_step(m, start).0, end).1 is None,
        verify_step(m, end).1 is None ==> verify_step(verify_step(m, end).0, content).1 == broken(
            ViolationKind::ThinkingContentWithoutMessage,
            Seq::empty(),
        ),
{
}

/// A text message: after an accepted start of id `k`, content and end for
/// `k` are accepted and a second start for `k` is rejected; after an
/// accepted end for `k`, content for `k` is rejected and a new start for `k`
/// is accepted.
pub proof fn lemma_text_message_lifecycle<S>(
    m: VerifierModel,
    start: Event<S>,
    content: Event<S>,
    end: Event<S>,
)
    requires
        model_well_formed(m),
        start is TextMessageStart,
        content is TextMessageContent,
        end is TextMessageEnd,
        event_key(start) == event_key(content),
        event_key(start) == event_key(end),
    ensures
        verify_step(m, start).1 is None ==> {
            let m1 = verify_step(m, start).0;
            &&& verify_step(m1, content).1 is None
            &&& verify_step(m1, end).1 is None
            &&& verify_step(m1, start).1 == broken(ViolationKind::MessageAlreadyActive, event_key(start))
        },
        verify_step(m, end).1 is None ==> {
            let m1 = verify_step(m, end).0;
            &&& verify_step(m1, content).1 == broken(ViolationKind::MessageContentWithoutStart, event_key(start))
            &&& verify_step(m1, start).1 is None
        },
{
    let k = event_key(start);
    if verify_step(m, start).1 is None {
        let m1 = verify_step(m, start).0;
        assert(m1.messages == m.messages.push(k));
        assert(m1.messages[m.messages.len() as int] == k);
    }
    if verify_step(m, end).1 is None {
        lemma_remove_value_no_duplicates(m.messages, k);
    }
}

/// A tool call: after an accepted start of id `k`, arguments and end for
/// `k` are accepted and a second start for `k` is rejected; after an
/// accepted end for `k`, arguments for `k` are rejected and a new start for
/// `k` is accepted.
pub proof fn lemma_tool_call_lifecycle<S>(m: VerifierModel, start: Event<S>, args: Event<S>, end: Event<S>)
    requires
        model_well_formed(m),
        start is ToolCallStart,
        args is ToolCallArgs,
        end is ToolCallEnd,
        event_key(start) == event_key(args),
        event_key(start) == event_key(end),
    ensures
        verify_step(m, start).1 is None ==> {
            let m1 = verify_step(m, start).0;
            &&& verify_step(m1, args).1 is None
            &&& verify_step(m1, end).1 is None
            &&& verify_step(m1, start).1 == broken(ViolationKind::ToolCallAlreadyActive, event_key(start))
        },
        verify_step(m, end).1 is None ==> {
            let m1 = verify_step(m, end).0;
            &&& verify_step(m1, args).1 == broken(ViolationKind::ToolCallArgsWithoutStart, event_key(start))
            &&& verify_step(m1, start).1 is None
        },
{
    let k = event_key(start);
    if verify_step(m, start).1 is None {
        let m1 = verify_step(m, start).0;
        assert(m1.tool_calls == m.tool_calls.push(k));
        assert(m1.tool_calls[m.tool_calls.len() as int] == k);
    }
    if verify_step(m, end).1 is None {
        lemma_remove_value_no_duplicates(m.tool_calls, k);
    }
}

/// A step: after an accepted start of name `k`, its finish is accepted and a
/// second start is rejected; after an accepted finish, a second finish is
/// rejected and a new start is accepted.
pub proof fn lemma_step_lifecycle<S>(m: VerifierModel, start: Event<S>, finish: Event<S>)
    requires
        model_well_formed(m),
        start is StepStarted,
        finish is StepFinished,
        event_key(start) == event_key(finish),
    ensures
        verify_step(m, start).1 is None ==> {
            let m1 = verify_step(m, start).0;
            &&& verify_step(m1, finish).1 is None
            &&& verify_step(m1, start).1 == broken(ViolationKind::StepAlreadyActive, event_key(start))
        },
        verify_step(m, finish).1 is None ==> {
            let m1 = verify_step(m, finish).0;
            &&& verify_step(m1, finish).1 == broken(ViolationKind::StepNotStarted, event_key(start))
            &&& verify_step(m1, start).1 is None
        },
{
    let k = event_key(start);
    if verify_step(m, start).1 is None {
        let m1 = verify_step(m, start).0;
        assert(m1.steps == m.steps.push(k));
        assert(m1.steps[m.steps.len() as int] == k);
    }
    if verify_step(m, finish).1 is None {
        lemma_remove_value_no_duplicates(m.steps, k);
    }
}

/// Debug mode changes nothing of a check: from states that differ only in
/// the debug flag, an event is accepted or rejected alike, for the same
/// broken rule, and the next states again differ only in the flag.
pub proof fn lemma_debug_does_not_change_step<S>(m: VerifierModel, e: Event<S>, debug: bool)
    ensures
        verify_step(VerifierModel { debug, ..m }, e).1 == verify_step(m, e).1,
        verify_step(VerifierModel { debug, ..m }, e).0 == (VerifierModel { debug, ..verify_step(m, e).0 }),
{
}

/// Debug mode changes nothing of checking a stream: from states that differ
/// only in the debug flag, the same events are accepted in full or not, and
/// the final states differ only in the flag.
pub proof fn lemma_debug_does_not_change_stream<S>(m: VerifierModel, events: Seq<Event<S>>, debug: bool)
    ensures
        verify_all(VerifierModel { debug, ..m }, events).1 == verify_all(m, events).1,
        verify_all(VerifierModel { debug, ..m }, events).0 == (VerifierModel { debug, ..verify_all(m, events).0 }),
    decreases events.len(),
{
    if events.len() > 0 {
        lemma_debug_does_not_change_step(m, events[0], debug);
        let m1 = verify_step(m, events[0]).0;
        lemma_debug_does_not_change_stream(m1, events.subrange(1, events.len() as int), debug);
    }
}

/// A stream accepted in full by a fresh verifier begins with `RUN_STARTED` or
/// `RUN_ERROR`.
pub proof fn lemma_accepted_stream_starts_run<S>(debug: bool, events: Seq<Event<S>>)
    requires
        events.len() > 0,
        verify_all(initial_model(debug), events).1,
    ensures
        spec_event_type(events[0]) == EventType::RunStarted || spec_event_type(events[0]) == EventType::RunError,
{
    let (m1, v) = verify_step(initial_model(debug), events[0]);
    let (m2, ok) = verify_all(m1, events.subrange(1, events.len() as int));
    assert(v is None);
}

/// A stream accepted in full whose last event is `RUN_FINISHED` leaves no
/// text message, tool call or step active.
pub proof fn lemma_accepted_finished_stream_is_closed<S>(m: VerifierModel, events: Seq<Event<S>>)
    requires
        events.len() > 0,
        spec_event_type(events.last()) == EventType::RunFinished,
        verify_all(m, events).1,
    ensures
        verify_all(m, events).0.messages.len() == 0,
        verify_all(m, events).0.tool_calls.len() == 0,
        verify_all(m, events).0.steps.len() == 0,
        verify_all(m, events).0.run_finished,
    decreases events.len(),
{
    let (m1, v) = verify_step(m, events[0]);
    let rest = events.subrange(1, events.len() as int);
    assert(verify_all(m, events) == ({
        let (m2, ok) = verify_all(m1, rest);
        (m2, ok && v is None)
    }));
    if events.len() == 1 {
        assert(rest.len() == 0);
        assert(verify_all(m1, rest) == (m1, true));
        assert(events.last() == events[0]);
        lemma_finish_requires_closed_streams(m, events[0]);
    } else {
        assert(rest.last() == events.last());
        lemma_accepted_finished_stream_is_closed(m1, rest);
    }
}

} // verus!
