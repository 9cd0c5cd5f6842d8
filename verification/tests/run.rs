use ag_ui::compact::compact_events;
use ag_ui::event::{
    BaseEvent, Event, RunErrorEvent, RunFinishedEvent, StateDeltaEvent, StateSnapshotEvent, TextMessageContentEvent,
    TextMessageEndEvent, TextMessageStartEvent, ToolCallArgsEvent, ToolCallStartEvent,
};
use ag_ui::event_handler::{AgentStateMutation, EventHandler};
use ag_ui::finalize::finalize_run_events;
use ag_ui::ids::{MessageId, RunId, ThreadId, ToolCallId};
use ag_ui::json::JsonValue;
use ag_ui::message::{Message, Role};
use ag_ui::state::StatePatch;
use ag_ui::error::StateError;
use ag_ui::verify::AgUiClientError;

fn base() -> BaseEvent {
    BaseEvent { timestamp: None, raw_event: None }
}

fn json(text: &str) -> JsonValue {
    JsonValue::from_text(text)
}

fn value(v: &JsonValue) -> serde_json::Value {
    serde_json::from_str(v.as_text()).expect("valid JSON")
}

fn text_start(id: &str) -> Event {
    Event::TextMessageStart(TextMessageStartEvent { base: base(), message_id: MessageId::new(id), role: Role::Assistant })
}

fn text_end(id: &str) -> Event {
    Event::TextMessageEnd(TextMessageEndEvent { base: base(), message_id: MessageId::new(id) })
}

fn tool_start(id: &str, name: &str, parent: Option<&str>) -> Event {
    Event::ToolCallStart(ToolCallStartEvent {
        base: base(),
        tool_call_id: ToolCallId::new(id),
        tool_call_name: name.to_string(),
        parent_message_id: parent.map(MessageId::new),
    })
}

fn snapshot(text: &str) -> Event {
    Event::StateSnapshot(StateSnapshotEvent { base: base(), snapshot: json(text) })
}

fn delta(ops: &[&str]) -> Event {
    Event::StateDelta(StateDeltaEvent { base: base(), delta: ops.iter().map(|o| json(o)).collect() })
}

#[test]
fn adds_run_finished_to_empty_stream() {
    let mut events: Vec<Event> = vec![];
    let tid = ThreadId::new("t1");
    let rid = RunId::new("r1");
    finalize_run_events(&mut events, &tid, &rid);
    assert_eq!(events.len(), 1);
    assert!(matches!(events[0], Event::RunFinished(_)));
}

#[test]
fn closes_unpaired_text_message() {
    let mut events: Vec<Event> = vec![text_start("msg-1")];
    finalize_run_events(&mut events, &ThreadId::new("t1"), &RunId::new("r1"));
    assert_eq!(events.len(), 3);
    assert!(matches!(events[1], Event::TextMessageEnd(_)));
    assert!(matches!(events[2], Event::RunFinished(_)));
}

#[test]
fn closes_unpaired_tool_call() {
    let mut events: Vec<Event> = vec![tool_start("tc-1", "test_tool", None)];
    finalize_run_events(&mut events, &ThreadId::new("t1"), &RunId::new("r1"));
    assert_eq!(events.len(), 4);
    assert!(matches!(events[1], Event::ToolCallEnd(_)));
    assert!(matches!(events[2], Event::ToolCallResult(_)));
    assert!(matches!(events[3], Event::RunFinished(_)));
}

#[test]
fn preserves_existing_run_finished() {
    let mut events: Vec<Event> = vec![Event::RunFinished(RunFinishedEvent {
        base: base(),
        thread_id: ThreadId::new("t1"),
        run_id: RunId::new("r1"),
        result: None,
    })];
    finalize_run_events(&mut events, &ThreadId::new("t1"), &RunId::new("r1"));
    assert_eq!(events.len(), 1);
}

#[test]
fn preserves_existing_run_error() {
    let mut events: Vec<Event> =
        vec![Event::RunError(RunErrorEvent { base: base(), message: "oops".to_string(), code: None })];
    finalize_run_events(&mut events, &ThreadId::new("t1"), &RunId::new("r1"));
    assert_eq!(events.len(), 1);
}

#[test]
fn closes_paired_message_and_skips() {
    let mut events: Vec<Event> = vec![text_start("msg-1"), text_end("msg-1")];
    finalize_run_events(&mut events, &ThreadId::new("t1"), &RunId::new("r1"));
    assert_eq!(events.len(), 3);
    assert!(matches!(events[2], Event::RunFinished(_)));
}

#[test]
fn mixed_unpaired_events() {
    let mut events: Vec<Event> = vec![text_start("msg-1"), tool_start("tc-1", "tool_a", None)];
    finalize_run_events(&mut events, &ThreadId::new("t1"), &RunId::new("r1"));
    assert_eq!(events.len(), 6);
}

#[test]
fn finalizing_twice_adds_nothing_more() {
    let mut events: Vec<Event> = vec![text_start("a"), text_start("b"), tool_start("x", "t", None), text_end("a")];
    finalize_run_events(&mut events, &ThreadId::new("t1"), &RunId::new("r1"));
    assert_eq!(events.len(), 4 + 1 + 2 + 1);
    match &events[4] {
        Event::TextMessageEnd(e) => assert!(e.message_id == MessageId::new("b")),
        _ => panic!("expected the end of b"),
    }
    match &events[6] {
        Event::ToolCallResult(e) => {
            assert_eq!(e.tool_call_id.as_str(), "x");
            assert_eq!(e.content, "");
            assert_eq!(e.role, Role::Tool);
        },
        _ => panic!("expected an empty result"),
    }
    match &events[7] {
        Event::RunFinished(e) => {
            assert!(e.thread_id == ThreadId::new("t1"));
            assert!(e.run_id == RunId::new("r1"));
            assert!(e.result.is_none());
        },
        _ => panic!("expected RUN_FINISHED"),
    }
    let before = events.len();
    finalize_run_events(&mut events, &ThreadId::new("t1"), &RunId::new("r1"));
    assert_eq!(events.len(), before);
}

#[test]
fn no_deltas_no_change() {
    let mut events: Vec<Event> = vec![text_start("msg-1")];
    let len = events.len();
    compact_events(&mut events);
    assert_eq!(events.len(), len);
}

#[test]
fn single_delta_against_snapshot() {
    let mut events: Vec<Event> =
        vec![snapshot(r#"{"count": 0}"#), delta(&[r#"{"op": "replace", "path": "/count", "value": 1}"#])];
    compact_events(&mut events);
    assert_eq!(events.len(), 1);
    if let Event::StateSnapshot(ref snap) = events[0] {
        assert_eq!(value(&snap.snapshot)["count"], 1);
    } else {
        panic!("Expected STATE_SNAPSHOT");
    }
}

#[test]
fn multiple_deltas_merged() {
    let mut events: Vec<Event> = vec![
        snapshot(r#"{"x": 0, "y": 0}"#),
        delta(&[r#"{"op": "replace", "path": "/x", "value": 1}"#]),
        delta(&[r#"{"op": "replace", "path": "/y", "value": 2}"#]),
    ];
    compact_events(&mut events);
    assert_eq!(events.len(), 1);
    if let Event::StateSnapshot(ref snap) = events[0] {
        assert_eq!(value(&snap.snapshot)["x"], 1);
        assert_eq!(value(&snap.snapshot)["y"], 2);
    } else {
        panic!("Expected STATE_SNAPSHOT");
    }
}

#[test]
fn preserves_mixed_events() {
    let mut events: Vec<Event> =
        vec![snapshot(r#"{"a": 1}"#), delta(&[r#"{"op": "replace", "path": "/a", "value": 2}"#])];
    compact_events(&mut events);
    assert_eq!(events.len(), 1);
}

#[test]
fn no_prior_snapshot_uses_null() {
    let mut events: Vec<Event> = vec![delta(&[r#"{"op": "add", "path": "/x", "value": 1}"#])];
    compact_events(&mut events);
    assert_eq!(events.len(), 1);
}

#[test]
fn compaction_keeps_other_events_and_skips_bad_operations() {
    let mut events: Vec<Event> = vec![
        text_start("m"),
        delta(&[r#"{"op": "add", "path": "", "value": {"n": 1}}"#, r#"{"nonsense": true}"#]),
        text_end("m"),
        delta(&[r#"{"op": "replace", "path": "/missing/deep", "value": 3}"#]),
    ];
    compact_events(&mut events);
    assert_eq!(events.len(), 4);
    assert!(matches!(events[0], Event::TextMessageStart(_)));
    match &events[1] {
        Event::StateSnapshot(s) => assert_eq!(value(&s.snapshot)["n"], 1),
        _ => panic!("expected a snapshot"),
    }
    assert!(matches!(events[2], Event::TextMessageEnd(_)));
    match &events[3] {
        Event::StateSnapshot(s) => assert_eq!(value(&s.snapshot)["n"], 1),
        _ => panic!("expected a snapshot"),
    }
    let again = events.len();
    compact_events(&mut events);
    assert_eq!(events.len(), again);
}

#[test]
fn state_patch_between_and_apply() {
    let before = json(r#"{"count": 0}"#);
    let after = json(r#"{"count": 1}"#);
    let patch = StatePatch::between(&before, &after).expect("valid JSON");
    assert_eq!(patch.len(), 1);
    assert!(!patch.is_empty());
    let applied = patch.apply_to(&before).expect("patch applies");
    assert_eq!(value(&applied), value(&after));

    let same = StatePatch::between(&before, &before).expect("valid JSON");
    assert!(same.is_empty());
    assert_eq!(StatePatch::empty().len(), 0);
}

#[test]
fn state_patch_errors() {
    match StatePatch::between(&json("{"), &json("{}")) {
        Err(StateError::Serialization { .. }) => {},
        other => panic!("unexpected {:?}", other.map(|p| p.len())),
    }
    let patch = StatePatch(vec![json(r#"{"op": "remove", "path": "/nothing"}"#)]);
    match patch.apply_to(&json("{}")) {
        Err(StateError::PatchFailed { op, path, .. }) => {
            assert_eq!(op, "apply");
            assert_eq!(path, "unknown");
        },
        other => panic!("unexpected {:?}", other.map(|v| v.as_text().to_string())),
    }
}

#[test]
fn handler_builds_messages_from_events() {
    let mut handler = EventHandler::new(vec![], json("{}"));
    let m = handler.apply_event(&text_start("m1")).unwrap();
    assert_eq!(m.messages.as_ref().map(|v| v.len()), Some(1));
    handler
        .apply_event(&Event::TextMessageContent(TextMessageContentEvent {
            base: base(),
            message_id: MessageId::new("m1"),
            delta: "Hel".to_string(),
        }))
        .unwrap();
    handler
        .apply_event(&Event::TextMessageContent(TextMessageContentEvent {
            base: base(),
            message_id: MessageId::new("m1"),
            delta: "lo".to_string(),
        }))
        .unwrap();
    assert_eq!(handler.text_message_buffer(), "Hello");

    handler.apply_event(&tool_start("tc1", "search", Some("m1"))).unwrap();
    handler
        .apply_event(&Event::ToolCallArgs(ToolCallArgsEvent {
            base: base(),
            tool_call_id: ToolCallId::new("tc1"),
            delta: "{\"q\":".to_string(),
        }))
        .unwrap();
    let call = handler.last_tool_call().expect("a tool call");
    assert_eq!(call.function.name, "search");
    assert_eq!(call.function.arguments, "{\"q\":");
    assert_eq!(handler.messages.len(), 1);
    assert_eq!(handler.messages[0].role(), Role::Assistant);
}

#[test]
fn handler_tool_call_start_without_messages_adds_parent() {
    let mut handler = EventHandler::new(vec![], json("{}"));
    handler.apply_event(&tool_start("tc1", "search", Some("p1"))).unwrap();
    assert_eq!(handler.messages.len(), 1);
    assert!(*handler.messages[0].id() == MessageId::new("p1"));
    assert!(handler.last_tool_call().is_none());
}

#[test]
fn handler_rejects_unreadable_delta_operations() {
    let mut handler = EventHandler::new(vec![], json(r#"{"count": 0}"#));
    let ops = [
        r#"{"op": "replace", "path": "/count", "value": 5}"#,
        r#"{"op": "frobnicate", "path": "/count"}"#,
    ];
    match handler.apply_event(&delta(&ops)) {
        Err(AgUiClientError::Serialization { message }) => {
            assert!(message.contains("frobnicate"), "{}", message)
        },
        _ => panic!("expected a serialization error"),
    }
    assert_eq!(value(&handler.state)["count"], 0);
}

#[test]
fn handler_applies_state_events() {
    let mut handler = EventHandler::new(vec![], json(r#"{"count": 0}"#));
    let m = handler.apply_event(&delta(&[r#"{"op": "replace", "path": "/count", "value": 5}"#])).unwrap();
    assert!(m.state.is_some());
    assert_eq!(value(&handler.state)["count"], 5);

    match handler.apply_event(&delta(&[r#"{"op": "remove", "path": "/missing"}"#])) {
        Err(AgUiClientError::Execution { message }) => {
            assert!(message.starts_with("Failed to apply state patch: "))
        },
        _ => panic!("expected an error"),
    }
    assert_eq!(value(&handler.state)["count"], 5);

    handler.apply_event(&snapshot(r#"{"fresh": true}"#)).unwrap();
    assert_eq!(value(&handler.state)["fresh"], true);

    handler
        .apply_event(&Event::RunFinished(RunFinishedEvent {
            base: base(),
            thread_id: ThreadId::new("t"),
            run_id: RunId::new("r"),
            result: Some(json("42")),
        }))
        .unwrap();
    assert_eq!(handler.result.as_text(), "42");
}

#[test]
fn stop_propagation_wins() {
    let mut handler = EventHandler::new(vec![Message::new_user("hi")], json("{}"));
    let first = AgentStateMutation { messages: None, state: Some(json("1")), stop_propagation: false };
    let second = AgentStateMutation { messages: Some(vec![]), state: None, stop_propagation: true };
    let third = AgentStateMutation { messages: None, state: Some(json("3")), stop_propagation: false };
    let out = handler.resolve_mutations(AgentStateMutation::default(), vec![first, second, third]);
    assert!(out.stop_propagation);
    assert_eq!(handler.messages.len(), 0);
    assert_eq!(handler.state.as_text(), "1");
}

#[test]
fn mutations_without_stop_take_the_last_values() {
    let mut handler = EventHandler::new(vec![], json("{}"));
    let a = AgentStateMutation { messages: None, state: Some(json("1")), stop_propagation: false };
    let b = AgentStateMutation { messages: None, state: Some(json("2")), stop_propagation: false };
    let out = handler.resolve_mutations(AgentStateMutation::default(), vec![a, b]);
    assert!(!out.stop_propagation);
    assert_eq!(out.state.map(|s| s.as_text().to_string()), Some("2".to_string()));
    assert_eq!(handler.state.as_text(), "2");
}

#[test]
fn replaced_messages_report_the_new_ones() {
    let kept = Message::new_user("old");
    let kept_id = kept.id().clone();
    let mut handler = EventHandler::new(vec![kept], json("{}"));
    let new_messages = vec![
        Message::new(Role::User, kept_id, "old"),
        Message::new_assistant("fresh"),
    ];
    let fresh = handler.replace_messages(new_messages);
    assert_eq!(fresh, vec![1]);
    assert_eq!(handler.messages.len(), 2);
}

#[test]
fn failed_patch_whose_undo_would_fail_leaves_state() {
    let mut handler = EventHandler::new(vec![], json(r#"{"a": {"b": 1}}"#));
    let ops = [
        r#"{"op": "move", "from": "/a/b", "path": "/a"}"#,
        r#"{"op": "test", "path": "/x", "value": 1}"#,
    ];
    match handler.apply_event(&delta(&ops)) {
        Err(AgUiClientError::Execution { message }) => {
            assert!(message.starts_with("Failed to apply state patch: "))
        },
        _ => panic!("expected a patch error"),
    }
    assert_eq!(value(&handler.state)["a"]["b"], 1);
}
