use ag_ui::event::{
    BaseEvent, Event, RunFinishedEvent, RunStartedEvent, TextMessageContentEvent, TextMessageEndEvent,
    TextMessageStartEvent, ToolCallArgsEvent, ToolCallEndEvent, ToolCallResultEvent, ToolCallStartEvent,
};
use ag_ui::filter::{FilterConfig, FilterToolCallsMiddleware};
use ag_ui::ids::{MessageId, RunId, ThreadId, ToolCallId};
use ag_ui::message::Role;
use ag_ui::server_middleware::FilterToolCallsMiddleware as ServerFilter;

fn base_event() -> BaseEvent {
    BaseEvent { timestamp: None, raw_event: None }
}

fn run_started() -> Event {
    Event::RunStarted(RunStartedEvent { base: base_event(), thread_id: ThreadId::new("test"), run_id: RunId::new("test") })
}

fn run_finished() -> Event {
    Event::RunFinished(RunFinishedEvent {
        base: base_event(),
        thread_id: ThreadId::new("test"),
        run_id: RunId::new("test"),
        result: None,
    })
}

fn tool_call_start(id: &str, name: &str) -> Event {
    Event::ToolCallStart(ToolCallStartEvent {
        base: base_event(),
        tool_call_id: ToolCallId::new(id),
        tool_call_name: name.to_string(),
        parent_message_id: None,
    })
}

fn tool_call_args(id: &str) -> Event {
    Event::ToolCallArgs(ToolCallArgsEvent { base: base_event(), tool_call_id: ToolCallId::new(id), delta: "{}".to_string() })
}

fn tool_call_end(id: &str) -> Event {
    Event::ToolCallEnd(ToolCallEndEvent { base: base_event(), tool_call_id: ToolCallId::new(id) })
}

fn tool_call_result(id: &str) -> Event {
    Event::ToolCallResult(ToolCallResultEvent {
        base: base_event(),
        message_id: MessageId::new("msg1"),
        tool_call_id: ToolCallId::new(id),
        content: "result".to_string(),
        role: Role::Tool,
    })
}

fn text_message_start() -> Event {
    Event::TextMessageStart(TextMessageStartEvent {
        base: base_event(),
        message_id: MessageId::new("msg1"),
        role: Role::Assistant,
    })
}

fn text_message_content() -> Event {
    Event::TextMessageContent(TextMessageContentEvent {
        base: base_event(),
        message_id: MessageId::new("msg1"),
        delta: "Hello".to_string(),
    })
}

fn text_message_end() -> Event {
    Event::TextMessageEnd(TextMessageEndEvent { base: base_event(), message_id: MessageId::new("msg1") })
}

fn items(events: Vec<Event>) -> Vec<Result<Event, String>> {
    events.into_iter().map(Ok).collect()
}

#[test]
fn test_allowlist_filters_non_allowed_tools() {
    let mut middleware = FilterToolCallsMiddleware::new(FilterConfig::allow(&["allowed_tool"]));
    let events = vec![
        run_started(),
        tool_call_start("tc1", "blocked_tool"),
        tool_call_args("tc1"),
        tool_call_end("tc1"),
        tool_call_result("tc1"),
        run_finished(),
    ];
    let results = middleware.transform(items(events));
    assert_eq!(results.len(), 2);
}

#[test]
fn test_allowlist_allows_listed_tools() {
    let mut middleware = FilterToolCallsMiddleware::new(FilterConfig::allow(&["search"]));
    let events = vec![
        run_started(),
        tool_call_start("tc1", "search"),
        tool_call_args("tc1"),
        tool_call_end("tc1"),
        run_finished(),
    ];
    let results = middleware.transform(items(events));
    assert_eq!(results.len(), 5);
}

#[test]
fn test_blocklist_filters_blocked_tools() {
    let mut middleware = FilterToolCallsMiddleware::new(FilterConfig::block(&["dangerous_tool"]));
    let events = vec![
        run_started(),
        tool_call_start("tc1", "dangerous_tool"),
        tool_call_args("tc1"),
        tool_call_end("tc1"),
        run_finished(),
    ];
    let results = middleware.transform(items(events));
    assert_eq!(results.len(), 2);
}

#[test]
fn test_blocklist_allows_non_blocked_tools() {
    let mut middleware = FilterToolCallsMiddleware::new(FilterConfig::block(&["dangerous_tool"]));
    let events = vec![
        run_started(),
        tool_call_start("tc1", "safe_tool"),
        tool_call_args("tc1"),
        tool_call_end("tc1"),
        run_finished(),
    ];
    let results = middleware.transform(items(events));
    assert_eq!(results.len(), 5);
}

#[test]
fn test_non_tool_events_pass_through() {
    let mut middleware = FilterToolCallsMiddleware::new(FilterConfig::allow(&["search"]));
    let events = vec![run_started(), text_message_start(), text_message_content(), text_message_end(), run_finished()];
    let results = middleware.transform(items(events));
    assert_eq!(results.len(), 5);
}

#[test]
fn test_blocked_id_cleanup_on_result() {
    let mut middleware = FilterToolCallsMiddleware::new(FilterConfig::block(&["blocked_tool"]));
    let events = vec![run_started(), tool_call_start("tc1", "blocked_tool"), tool_call_result("tc1"), run_finished()];
    let _results = middleware.transform(items(events));
    assert!(middleware.blocked_ids().is_empty());
}

#[test]
fn test_multiple_tool_calls_mixed_filtering() {
    let mut middleware = FilterToolCallsMiddleware::new(FilterConfig::allow(&["allowed1", "allowed2"]));
    let events = vec![
        run_started(),
        tool_call_start("tc1", "allowed1"),
        tool_call_start("tc2", "blocked"),
        tool_call_start("tc3", "allowed2"),
        tool_call_args("tc1"),
        tool_call_args("tc2"),
        tool_call_args("tc3"),
        tool_call_end("tc1"),
        tool_call_end("tc2"),
        tool_call_end("tc3"),
        run_finished(),
    ];
    let results = middleware.transform(items(events));
    assert_eq!(results.len(), 8);
}

#[test]
fn test_empty_allowlist_blocks_all_tools() {
    let mut middleware = FilterToolCallsMiddleware::new(FilterConfig::allow(&[]));
    let events = vec![
        run_started(),
        tool_call_start("tc1", "any_tool"),
        tool_call_args("tc1"),
        tool_call_end("tc1"),
        run_finished(),
    ];
    let results = middleware.transform(items(events));
    assert_eq!(results.len(), 2);
}

#[test]
fn test_empty_blocklist_allows_all_tools() {
    let mut middleware = FilterToolCallsMiddleware::new(FilterConfig::block(&[]));
    let events = vec![
        run_started(),
        tool_call_start("tc1", "any_tool"),
        tool_call_args("tc1"),
        tool_call_end("tc1"),
        run_finished(),
    ];
    let results = middleware.transform(items(events));
    assert_eq!(results.len(), 5);
}

#[test]
fn allowlist_filters_non_allowed_tools() {
    let mut middleware = ServerFilter::allow(&["allowed_tool"]);
    let events = vec![
        run_started(),
        tool_call_start("tc1", "blocked_tool"),
        tool_call_args("tc1"),
        tool_call_end("tc1"),
        tool_call_result("tc1"),
        run_finished(),
    ];
    let results = middleware.transform(items(events));
    assert_eq!(results.len(), 2);
}

#[test]
fn blocklist_filters_blocked_tools() {
    let mut middleware = ServerFilter::block(&["dangerous_tool"]);
    let events = vec![
        run_started(),
        tool_call_start("tc1", "dangerous_tool"),
        tool_call_args("tc1"),
        tool_call_end("tc1"),
        run_finished(),
    ];
    let results = middleware.transform(items(events));
    assert_eq!(results.len(), 2);
}

#[test]
fn non_tool_events_pass_through() {
    let mut middleware = ServerFilter::allow(&["search"]);
    let events = vec![run_started(), text_message_start(), text_message_content(), text_message_end(), run_finished()];
    let results = middleware.transform(items(events));
    assert_eq!(results.len(), 5);
}

#[test]
fn errors_pass_the_filter_in_place() {
    let mut middleware = FilterToolCallsMiddleware::new(FilterConfig::block(&["x"]));
    let input: Vec<Result<Event, String>> = vec![
        Ok(tool_call_start("tc1", "x")),
        Err("boom".to_string()),
        Ok(tool_call_args("tc1")),
        Ok(run_finished()),
    ];
    let results = middleware.transform(input);
    assert_eq!(results.len(), 2);
    assert_eq!(results[0].as_ref().err().map(|s| s.as_str()), Some("boom"));
    assert!(middleware.should_filter("x"));
    assert!(!middleware.should_filter("y"));
    assert_eq!(middleware.blocked_ids().len(), 1);
}
