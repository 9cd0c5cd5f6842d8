use ag_ui::event::{
    BaseEvent, Event, RunErrorEvent, RunFinishedEvent, RunStartedEvent, StepFinishedEvent, StepStartedEvent,
    TextMessageContentEvent, TextMessageEndEvent, TextMessageStartEvent, ThinkingEndEvent, ThinkingStartEvent,
    ThinkingTextMessageContentEvent, ThinkingTextMessageEndEvent, ThinkingTextMessageStartEvent, ToolCallArgsEvent,
    ToolCallEndEvent, ToolCallStartEvent,
};
use ag_ui::ids::{MessageId, RunId, ThreadId, ToolCallId};
use ag_ui::message::Role;
use ag_ui::verify::EventVerifier;

fn base_event() -> BaseEvent {
    BaseEvent { timestamp: None, raw_event: None }
}

fn run_started_event() -> Event {
    Event::RunStarted(RunStartedEvent {
        base: base_event(),
        thread_id: ThreadId::new("test-thread"),
        run_id: RunId::new("test-run"),
    })
}

fn run_finished_event() -> Event {
    Event::RunFinished(RunFinishedEvent {
        base: base_event(),
        thread_id: ThreadId::new("test-thread"),
        run_id: RunId::new("test-run"),
        result: None,
    })
}

fn run_error_event() -> Event {
    Event::RunError(RunErrorEvent { base: base_event(), message: "Test error".to_string(), code: None })
}

fn text_message_start_event(message_id: &str) -> Event {
    Event::TextMessageStart(TextMessageStartEvent {
        base: base_event(),
        message_id: MessageId::new(message_id),
        role: Role::Assistant,
    })
}

fn text_message_content_event(message_id: &str) -> Event {
    Event::TextMessageContent(TextMessageContentEvent {
        base: base_event(),
        message_id: MessageId::new(message_id),
        delta: "Hello".to_string(),
    })
}

fn text_message_end_event(message_id: &str) -> Event {
    Event::TextMessageEnd(TextMessageEndEvent { base: base_event(), message_id: MessageId::new(message_id) })
}

fn tool_call_start_event(tool_call_id: &str) -> Event {
    Event::ToolCallStart(ToolCallStartEvent {
        base: base_event(),
        tool_call_id: ToolCallId::new(tool_call_id),
        tool_call_name: "test_tool".to_string(),
        parent_message_id: None,
    })
}

fn tool_call_args_event(tool_call_id: &str) -> Event {
    Event::ToolCallArgs(ToolCallArgsEvent {
        base: base_event(),
        tool_call_id: ToolCallId::new(tool_call_id),
        delta: r#"{"arg": "value"}"#.to_string(),
    })
}

fn tool_call_end_event(tool_call_id: &str) -> Event {
    Event::ToolCallEnd(ToolCallEndEvent { base: base_event(), tool_call_id: ToolCallId::new(tool_call_id) })
}

fn step_started_event(step_name: &str) -> Event {
    Event::StepStarted(StepStartedEvent { base: base_event(), step_name: step_name.to_string() })
}

fn step_finished_event(step_name: &str) -> Event {
    Event::StepFinished(StepFinishedEvent { base: base_event(), step_name: step_name.to_string() })
}

fn thinking_start_event() -> Event {
    Event::ThinkingStart(ThinkingStartEvent { base: base_event(), title: None })
}

fn thinking_end_event() -> Event {
    Event::ThinkingEnd(ThinkingEndEvent { base: base_event() })
}

fn thinking_message_start_event() -> Event {
    Event::ThinkingTextMessageStart(ThinkingTextMessageStartEvent { base: base_event() })
}

fn thinking_message_content_event() -> Event {
    Event::ThinkingTextMessageContent(ThinkingTextMessageContentEvent {
        base: base_event(),
        delta: "Thinking...".to_string(),
    })
}

fn thinking_message_end_event() -> Event {
    Event::ThinkingTextMessageEnd(ThinkingTextMessageEndEvent { base: base_event() })
}

#[test]
fn test_first_event_must_be_run_started() {
    let mut verifier = EventVerifier::new();
    let result = verifier.verify(&text_message_start_event("msg1"));
    assert!(result.is_err());
    assert!(result.unwrap_err().to_string().contains("First event must be 'RUN_STARTED'"));
}

#[test]
fn test_first_event_can_be_run_error() {
    let mut verifier = EventVerifier::new();
    let result = verifier.verify(&run_error_event());
    assert!(result.is_ok());
}

#[test]
fn test_cannot_start_run_while_run_active() {
    let mut verifier = EventVerifier::new();
    verifier.verify(&run_started_event()).expect("valid event rejected");
    let result = verifier.verify(&run_started_event());
    assert!(result.is_err());
    assert!(result.unwrap_err().to_string().contains("Cannot send 'RUN_STARTED' while a run is still active"));
}

#[test]
fn test_text_message_flow() {
    let mut verifier = EventVerifier::new();
    verifier.verify(&run_started_event()).expect("valid event rejected");
    verifier.verify(&text_message_start_event("msg1")).expect("valid event rejected");
    verifier.verify(&text_message_content_event("msg1")).expect("valid event rejected");
    verifier.verify(&text_message_end_event("msg1")).expect("valid event rejected");
    verifier.verify(&run_finished_event()).expect("valid event rejected");
}

#[test]
fn test_cannot_send_content_without_start() {
    let mut verifier = EventVerifier::new();
    verifier.verify(&run_started_event()).expect("valid event rejected");
    let result = verifier.verify(&text_message_content_event("msg1"));
    assert!(result.is_err());
    assert!(result.unwrap_err().to_string().contains("No active text message found"));
}

#[test]
fn test_cannot_send_end_without_start() {
    let mut verifier = EventVerifier::new();
    verifier.verify(&run_started_event()).expect("valid event rejected");
    let result = verifier.verify(&text_message_end_event("msg1"));
    assert!(result.is_err());
    assert!(result.unwrap_err().to_string().contains("No active text message found"));
}

#[test]
fn test_tool_call_flow() {
    let mut verifier = EventVerifier::new();
    verifier.verify(&run_started_event()).expect("valid event rejected");
    verifier.verify(&tool_call_start_event("tc1")).expect("valid event rejected");
    verifier.verify(&tool_call_args_event("tc1")).expect("valid event rejected");
    verifier.verify(&tool_call_end_event("tc1")).expect("valid event rejected");
    verifier.verify(&run_finished_event()).expect("valid event rejected");
}

#[test]
fn test_cannot_send_args_without_start() {
    let mut verifier = EventVerifier::new();
    verifier.verify(&run_started_event()).expect("valid event rejected");
    let result = verifier.verify(&tool_call_args_event("tc1"));
    assert!(result.is_err());
    assert!(result.unwrap_err().to_string().contains("No active tool call found"));
}

#[test]
fn test_run_finished_requires_all_streams_closed() {
    let mut verifier = EventVerifier::new();
    verifier.verify(&run_started_event()).expect("valid event rejected");
    verifier.verify(&text_message_start_event("msg1")).expect("valid event rejected");
    let result = verifier.verify(&run_finished_event());
    assert!(result.is_err());
    assert!(result.unwrap_err().to_string().contains("text messages are still active"));
}

#[test]
fn test_run_error_blocks_further_events() {
    let mut verifier = EventVerifier::new();
    verifier.verify(&run_started_event()).expect("valid event rejected");
    verifier.verify(&run_error_event()).expect("valid event rejected");
    let result = verifier.verify(&text_message_start_event("msg1"));
    assert!(result.is_err());
    assert!(result.unwrap_err().to_string().contains("already errored with 'RUN_ERROR'"));
}

#[test]
fn test_new_run_started_after_run_finished_resets_state() {
    let mut verifier = EventVerifier::new();
    verifier.verify(&run_started_event()).expect("valid event rejected");
    verifier.verify(&run_finished_event()).expect("valid event rejected");
    verifier.verify(&run_started_event()).expect("valid event rejected");
    verifier.verify(&text_message_start_event("msg1")).expect("valid event rejected");
    verifier.verify(&text_message_end_event("msg1")).expect("valid event rejected");
    verifier.verify(&run_finished_event()).expect("valid event rejected");
}

#[test]
fn test_step_started_finished_tracking() {
    let mut verifier = EventVerifier::new();
    verifier.verify(&run_started_event()).expect("valid event rejected");
    verifier.verify(&step_started_event("step1")).expect("valid event rejected");
    verifier.verify(&step_finished_event("step1")).expect("valid event rejected");
    verifier.verify(&run_finished_event()).expect("valid event rejected");
}

#[test]
fn test_step_finished_without_start() {
    let mut verifier = EventVerifier::new();
    verifier.verify(&run_started_event()).expect("valid event rejected");
    let result = verifier.verify(&step_finished_event("step1"));
    assert!(result.is_err());
    assert!(result.unwrap_err().to_string().contains("was not started"));
}

#[test]
fn test_thinking_flow_validation() {
    let mut verifier = EventVerifier::new();
    verifier.verify(&run_started_event()).expect("valid event rejected");
    verifier.verify(&thinking_start_event()).expect("valid event rejected");
    verifier.verify(&thinking_message_start_event()).expect("valid event rejected");
    verifier.verify(&thinking_message_content_event()).expect("valid event rejected");
    verifier.verify(&thinking_message_end_event()).expect("valid event rejected");
    verifier.verify(&thinking_end_event()).expect("valid event rejected");
    verifier.verify(&run_finished_event()).expect("valid event rejected");
}

#[test]
fn test_thinking_message_requires_thinking_step() {
    let mut verifier = EventVerifier::new();
    verifier.verify(&run_started_event()).expect("valid event rejected");
    let result = verifier.verify(&thinking_message_start_event());
    assert!(result.is_err());
    assert!(result.unwrap_err().to_string().contains("thinking step is not in progress"));
}

#[test]
fn test_cannot_finish_run_with_active_steps() {
    let mut verifier = EventVerifier::new();
    verifier.verify(&run_started_event()).expect("valid event rejected");
    verifier.verify(&step_started_event("step1")).expect("valid event rejected");
    let result = verifier.verify(&run_finished_event());
    assert!(result.is_err());
    assert!(result.unwrap_err().to_string().contains("steps are still active"));
}

#[test]
fn test_cannot_finish_run_with_active_tool_calls() {
    let mut verifier = EventVerifier::new();
    verifier.verify(&run_started_event()).expect("valid event rejected");
    verifier.verify(&tool_call_start_event("tc1")).expect("valid event rejected");
    let result = verifier.verify(&run_finished_event());
    assert!(result.is_err());
    assert!(result.unwrap_err().to_string().contains("tool calls are still active"));
}

#[test]
fn test_multiple_concurrent_messages() {
    let mut verifier = EventVerifier::new();
    verifier.verify(&run_started_event()).expect("valid event rejected");
    verifier.verify(&text_message_start_event("msg1")).expect("valid event rejected");
    verifier.verify(&text_message_start_event("msg2")).expect("valid event rejected");
    verifier.verify(&text_message_content_event("msg1")).expect("valid event rejected");
    verifier.verify(&text_message_content_event("msg2")).expect("valid event rejected");
    verifier.verify(&text_message_end_event("msg1")).expect("valid event rejected");
    verifier.verify(&text_message_end_event("msg2")).expect("valid event rejected");
    verifier.verify(&run_finished_event()).expect("valid event rejected");
}

#[test]
fn test_cannot_start_duplicate_message() {
    let mut verifier = EventVerifier::new();
    verifier.verify(&run_started_event()).expect("valid event rejected");
    verifier.verify(&text_message_start_event("msg1")).expect("valid event rejected");
    let result = verifier.verify(&text_message_start_event("msg1"));
    assert!(result.is_err());
    assert!(result.unwrap_err().to_string().contains("already in progress"));
}

#[test]
fn test_cannot_send_after_run_finished() {
    let mut verifier = EventVerifier::new();
    verifier.verify(&run_started_event()).expect("valid event rejected");
    verifier.verify(&run_finished_event()).expect("valid event rejected");
    let result = verifier.verify(&text_message_start_event("msg1"));
    assert!(result.is_err());
    assert!(result.unwrap_err().to_string().contains("already finished with 'RUN_FINISHED'"));
}

#[test]
fn rejected_first_event_still_counts_as_first() {
    let mut verifier = EventVerifier::new();
    assert!(verifier.verify(&text_message_start_event("msg1")).is_err());
    assert!(verifier.verify(&run_started_event()).is_ok());
    assert!(verifier.verify(&text_message_start_event("msg1")).is_ok());
}

#[test]
fn open_messages_are_listed_when_run_finishes() {
    let mut verifier = EventVerifier::new();
    verifier.verify(&run_started_event()).expect("valid event rejected");
    verifier.verify(&text_message_start_event("msg1")).expect("valid event rejected");
    let message = verifier.verify(&run_finished_event()).unwrap_err().to_string();
    assert_eq!(message, "Cannot send 'RUN_FINISHED' while text messages are still active: [\"msg1\"]");
}

#[test]
fn debug_mode_gives_the_same_results() {
    let events = vec![
        run_started_event(),
        text_message_start_event("m1"),
        text_message_content_event("m1"),
        text_message_content_event("m2"),
        run_finished_event(),
        text_message_end_event("m1"),
        run_finished_event(),
        run_error_event(),
        run_started_event(),
    ];
    let mut plain = EventVerifier::new();
    let mut debug = EventVerifier::new().with_debug(true);
    assert!(debug.is_debug());
    let mut rejected = 0;
    for event in &events {
        let a = plain.verify(event);
        let b = debug.verify(event);
        if a.is_err() {
            rejected += 1;
        }
        assert_eq!(a, b);
    }
    assert!(rejected >= 2);
}
