use ag_ui::agent::{HealthStatus, Headers, RequestMetadata};
use ag_ui::encoder::{encode_sse, event_type_str, ContentType, EventEncoder, MAX_EVENT_SIZE};
use ag_ui::error::{AgentError, EncodeError, StateError, TransportError};
use ag_ui::event::{BaseEvent, Event, EventType};
use ag_ui::handler::{
    agent_error_event, encode_error_event, error_code, fallback_error_frame, health_response, route_paths,
};
use std::sync::Mutex;

fn text(bytes: &[u8]) -> String {
    String::from_utf8(bytes.to_vec()).expect("valid UTF-8")
}

#[test]
fn content_type_from_accept_sse() {
    assert_eq!(ContentType::from_accept("text/event-stream"), ContentType::Sse);
    assert_eq!(ContentType::from_accept("*/*"), ContentType::Sse);
    assert_eq!(ContentType::from_accept("text/html, text/event-stream"), ContentType::Sse);
}

#[test]
fn content_type_default_fallback() {
    assert_eq!(ContentType::from_accept("application/json"), ContentType::Sse);
    assert_eq!(ContentType::from_accept(""), ContentType::Sse);
}

#[test]
fn content_type_as_str() {
    assert_eq!(ContentType::Sse.as_str(), "text/event-stream");
}

#[test]
fn content_type_to_string_is_mime_type() {
    assert_eq!(ContentType::Sse.to_string(), "text/event-stream");
}

#[test]
fn content_type_is_binary() {
    assert!(!ContentType::Sse.is_binary());
}

#[test]
fn encoder_from_accept() {
    let encoder = EventEncoder::from_accept("text/event-stream");
    assert_eq!(encoder.content_type(), "text/event-stream");
}

#[test]
fn encoder_default_is_sse() {
    let encoder = EventEncoder::default();
    assert_eq!(encoder.content_type(), "text/event-stream");
    assert_eq!(encoder.content_type_enum(), ContentType::Sse);
}

#[test]
fn encoder_encode_sse() {
    let encoder = EventEncoder::sse();
    let json = r#"{"type":"RUN_STARTED","threadId":"thread-1","runId":"run-1"}"#.to_string();
    let bytes = encoder.encode(EventType::RunStarted, Ok(json)).expect("encoding should succeed");
    let s = text(&bytes);
    assert!(s.starts_with("data: "));
    assert!(s.ends_with("\n\n"));
    assert!(s.contains("RUN_STARTED"));
}

#[test]
fn encoder_encode_batch() {
    let encoder = EventEncoder::sse();
    let items = vec![
        (EventType::RunStarted, Ok(r#"{"type":"RUN_STARTED"}"#.to_string())),
        (EventType::RunFinished, Ok(r#"{"type":"RUN_FINISHED"}"#.to_string())),
    ];
    let bytes = encoder.encode_batch(items).expect("batch encoding should succeed");
    let s = text(&bytes);
    assert!(s.contains("RUN_STARTED"));
    assert!(s.contains("RUN_FINISHED"));
    assert_eq!(s.matches("\n\n").count(), 2);
    assert_eq!(s, "data: {\"type\":\"RUN_STARTED\"}\n\ndata: {\"type\":\"RUN_FINISHED\"}\n\n");
}

#[test]
fn encode_batch_stops_at_first_error() {
    let encoder = EventEncoder::sse();
    let items = vec![
        (EventType::RunStarted, Ok("{}".to_string())),
        (EventType::Custom, Err("key must be a string".to_string())),
        (EventType::RunFinished, Err("other".to_string())),
    ];
    match encoder.encode_batch(items) {
        Err(EncodeError::Json { event_type, source }) => {
            assert_eq!(event_type, "CUSTOM");
            assert_eq!(source, "key must be a string");
        },
        other => panic!("unexpected {:?}", other),
    }
}

#[test]
fn sse_format_correct() {
    let bytes = encode_sse(EventType::RunStarted, Ok(r#"{"type":"RUN_STARTED","threadId":"t1"}"#.to_string()))
        .expect("encoding should succeed");
    let s = text(&bytes);
    assert!(s.starts_with("data: {"));
    assert!(s.ends_with("}\n\n"));
    assert_eq!(s.trim_start_matches("data: ").trim_end(), r#"{"type":"RUN_STARTED","threadId":"t1"}"#);
}

#[test]
fn encode_empty_delta() {
    let json = r#"{"type":"TEXT_MESSAGE_CONTENT","messageId":"msg-1","delta":""}"#.to_string();
    let s = text(&encode_sse(EventType::TextMessageContent, Ok(json)).expect("encoding should succeed"));
    assert!(s.contains("\"delta\":\"\""));
}

#[test]
fn encode_unicode_content() {
    let json = "{\"delta\":\"Hello, 世界! 🌍\"}".to_string();
    let s = text(&encode_sse(EventType::TextMessageContent, Ok(json)).expect("encoding should succeed"));
    assert!(s.contains("世界"));
    assert!(s.contains("🌍"));
}

#[test]
fn multi_line_json_gets_one_data_line_per_line() {
    let s = text(&encode_sse(EventType::Custom, Ok("{\r\n\"a\": 1\n}\n".to_string())).unwrap());
    assert_eq!(s, "data: {\ndata: \"a\": 1\ndata: }\n\n");
    let s = text(&encode_sse(EventType::Custom, Ok("a\n\nb".to_string())).unwrap());
    assert_eq!(s, "data: a\ndata: \ndata: b\n\n");
}

#[test]
fn too_large_event_is_rejected() {
    let json = "x".repeat(MAX_EVENT_SIZE + 1);
    match encode_sse(EventType::Raw, Ok(json)) {
        Err(EncodeError::EventTooLarge { size, max }) => {
            assert_eq!(size, 1024 * 1024 + 1);
            assert_eq!(max, 1024 * 1024);
        },
        other => panic!("unexpected {:?}", other),
    }
    let json = "x".repeat(MAX_EVENT_SIZE);
    assert!(encode_sse(EventType::Raw, Ok(json)).is_ok());
}

#[test]
fn serializer_error_is_a_json_error() {
    match encode_sse(EventType::StateSnapshot, Err("bad state".to_string())) {
        Err(e) => assert_eq!(e.to_string(), "JSON serialization failed for STATE_SNAPSHOT: bad state"),
        Ok(_) => panic!("expected an error"),
    }
}

#[test]
fn request_metadata_from_headers() {
    let headers = vec![
        ("authorization".to_string(), Some("Bearer token".to_string())),
        ("x-request-id".to_string(), Some("req-123".to_string())),
        ("x-trace-id".to_string(), Some("trace-456".to_string())),
        ("user-agent".to_string(), Some("test-client/1.0".to_string())),
    ];

    let metadata = RequestMetadata::from_headers(&headers);

    assert_eq!(metadata.request_id, Some("req-123".to_string()));
    assert_eq!(metadata.trace_id, Some("trace-456".to_string()));
    assert_eq!(metadata.headers.get("authorization"), Some(&"Bearer token".to_string()));
    assert_eq!(metadata.headers.get("user-agent"), Some(&"test-client/1.0".to_string()));
}

#[test]
fn from_headers_keeps_first_value_and_skips_other_headers() {
    let headers = vec![
        ("x-request-id".to_string(), Some("first".to_string())),
        ("x-request-id".to_string(), Some("second".to_string())),
        ("authorization".to_string(), None),
        ("accept".to_string(), Some("text/event-stream".to_string())),
    ];
    let metadata = RequestMetadata::from_headers(&headers);
    assert_eq!(metadata.request_id, Some("first".to_string()));
    assert_eq!(metadata.trace_id, None);
    assert_eq!(metadata.authorization(), None);
    assert_eq!(metadata.accept(), None);
    assert_eq!(metadata.remote_addr, None);
}

#[test]
fn context_metadata_access() {
    let mut headers = Headers::new();
    headers.insert("authorization".to_string(), "Bearer token123".to_string());
    headers.insert("x-custom".to_string(), "value".to_string());

    let metadata = RequestMetadata::with_headers(headers).with_remote_addr("192.168.1.1").with_request_id("req-123");

    assert_eq!(metadata.header("authorization").map(|s| s.as_str()), Some("Bearer token123"));
    assert_eq!(metadata.header("x-custom").map(|s| s.as_str()), Some("value"));
    assert_eq!(metadata.header("nonexistent"), None);
    assert_eq!(metadata.remote_addr, Some("192.168.1.1".to_string()));
    assert_eq!(metadata.authorization().map(|s| s.as_str()), Some("Bearer token123"));
}

#[test]
fn header_insert_replaces_and_returns_previous() {
    let mut headers = Headers::default();
    assert_eq!(headers.insert("content-type".to_string(), "text/plain".to_string()), None);
    assert_eq!(
        headers.insert("content-type".to_string(), "application/json".to_string()),
        Some("text/plain".to_string())
    );
    assert_eq!(headers.get("content-type"), Some(&"application/json".to_string()));
    let metadata = RequestMetadata::with_headers(headers).with_trace_id("t-1");
    assert_eq!(metadata.content_type().map(|s| s.as_str()), Some("application/json"));
    assert_eq!(metadata.trace_id, Some("t-1".to_string()));
}

#[test]
fn health_status_display() {
    assert_eq!(HealthStatus::Healthy.to_string(), "healthy");
    assert_eq!(HealthStatus::degraded("high latency").to_string(), "degraded: high latency");
    assert_eq!(HealthStatus::unhealthy("database down").to_string(), "unhealthy: database down");
}

#[test]
fn health_status_is_healthy() {
    assert!(HealthStatus::Healthy.is_healthy());
    assert!(HealthStatus::degraded("minor issue").is_healthy());
    assert!(!HealthStatus::unhealthy("critical").is_healthy());
}

#[test]
fn health_answers() {
    let (code, body) = health_response(&Ok(HealthStatus::Healthy), "test-agent");
    assert_eq!(code, 200);
    assert_eq!(body.status, "healthy");
    assert_eq!(body.agent, "test-agent");
    assert_eq!(body.details, None);

    let (code, body) = health_response(&Ok(HealthStatus::degraded("slow")), "a");
    assert_eq!(code, 200);
    assert_eq!(body.status, "degraded");
    assert_eq!(body.details, Some("slow".to_string()));

    let (code, body) = health_response(&Ok(HealthStatus::unhealthy("down")), "a");
    assert_eq!(code, 503);
    assert_eq!(body.status, "unhealthy");

    let (code, body) = health_response(&Err(AgentError::custom("probe failed")), "a");
    assert_eq!(code, 500);
    assert_eq!(body.status, "error");
    assert_eq!(body.details, Some("probe failed".to_string()));
}

#[test]
fn error_codes_and_error_events() {
    assert_eq!(error_code(&AgentError::Aborted { reason: "x".to_string() }), "ABORTED");
    assert_eq!(error_code(&AgentError::State(StateError::MutexPoisoned)), "STATE_ERROR");
    assert_eq!(error_code(&AgentError::internal("x", "src/lib.rs:1")), "INTERNAL_ERROR");
    let e = AgentError::Transport(TransportError::Timeout { duration_ms: 5000 });
    match agent_error_event::<ag_ui::json::JsonValue>(&e, BaseEvent::default()) {
        Event::RunError(r) => {
            assert_eq!(r.message, "transport error: request timed out after 5000ms");
            assert_eq!(r.code, Some("TRANSPORT_ERROR".to_string()));
        },
        _ => panic!("expected RUN_ERROR"),
    }
    let e = EncodeError::EventTooLarge { size: 10, max: 5 };
    match encode_error_event::<ag_ui::json::JsonValue>(&e, BaseEvent::default()) {
        Event::RunError(r) => {
            assert_eq!(r.message, "encoding error: event exceeds max size: 10 bytes > 5 bytes limit");
            assert_eq!(r.code, Some("ENCODE_ERROR".to_string()));
        },
        _ => panic!("expected RUN_ERROR"),
    }
}

#[test]
fn fallback_frame_escapes_quotes() {
    let frame = fallback_error_frame("bad \"thing\"");
    assert_eq!(text(&frame), "data: {\"type\":\"RUN_ERROR\",\"message\":\"bad \\\"thing\\\"\"}\n\n");
}

#[test]
fn routes_with_and_without_prefix() {
    let (run, health) = route_paths("");
    assert_eq!(run, "/");
    assert_eq!(health, "/health");
    let (run, health) = route_paths("/api/agent");
    assert_eq!(run, "/api/agent");
    assert_eq!(health, "/api/agent/health");
}

#[test]
fn agent_error_is_cancelled() {
    let err = AgentError::Aborted { reason: "user cancelled".into() };
    assert!(err.is_cancelled());

    let err = AgentError::custom("other error");
    assert!(!err.is_cancelled());
}

#[test]
fn agent_error_is_recoverable() {
    let err = AgentError::Aborted { reason: "timeout".into() };
    assert!(err.is_recoverable());

    let err = AgentError::Transport(TransportError::Timeout { duration_ms: 5000 });
    assert!(err.is_recoverable());

    let err = AgentError::State(StateError::MutexPoisoned);
    assert!(!err.is_recoverable());
}

#[test]
fn custom_error_with_source() {
    let err = AgentError::custom_with_source("operation failed", "underlying error");
    assert!(matches!(err, AgentError::Custom { .. }));
    assert!(matches!(err, AgentError::Custom { source: Some(_), .. }));
}

#[test]
fn internal_error_macro() {
    let err = AgentError::internal("unexpected condition", "src/error.rs:12");
    match err {
        AgentError::Internal { message, location } => {
            assert_eq!(message, "unexpected condition");
            assert!(location.contains("error.rs"));
        },
        _ => panic!("expected Internal variant"),
    }
}

#[test]
fn state_error_from_poison() {
    let mutex = Mutex::new(42);
    let _guard = mutex.lock().expect("initial lock");

    let poison_err: Result<(), StateError> = Err(StateError::MutexPoisoned);
    assert!(matches!(poison_err, Err(StateError::MutexPoisoned)));
}

#[test]
fn error_display_messages() {
    let err = AgentError::ProtocolViolation {
        event_type: "TEXT_MESSAGE_CONTENT",
        violation: "no active message stream".into(),
    };
    assert_eq!(err.to_string(), "protocol violation in TEXT_MESSAGE_CONTENT: no active message stream");

    let err = StateError::PatchFailed {
        op: "replace".into(),
        path: "/foo/bar".into(),
        reason: "path does not exist".into(),
    };
    assert_eq!(err.to_string(), "patch failed: replace at '/foo/bar' - path does not exist");
}

#[test]
fn every_error_has_its_message() {
    assert_eq!(StateError::InvalidPatch { reason: "r".into() }.to_string(), "invalid patch document: r");
    assert_eq!(
        StateError::MutexPoisoned.to_string(),
        "state mutex poisoned - concurrent panic detected, state may be corrupted"
    );
    assert_eq!(
        StateError::MessageNotFound { id: "m".into() }.to_string(),
        "message 'm' not found in conversation state"
    );
    assert_eq!(StateError::DuplicateMessage { id: "m".into() }.to_string(), "duplicate message id: 'm' already exists");
    assert_eq!(
        StateError::ToolCallNotFound { id: "t".into(), message_id: "m".into() }.to_string(),
        "tool call 't' not found in message 'm'"
    );
    assert_eq!(StateError::Serialization { reason: "r".into() }.to_string(), "state serialization failed: r");
    assert_eq!(TransportError::HttpError { status: 404, message: "nope".into() }.to_string(), "HTTP 404: nope");
    assert_eq!(TransportError::ClientDisconnected { reason: "gone".into() }.to_string(), "client disconnected: gone");
    assert_eq!(TransportError::ConnectionFailed { reason: "refused".into() }.to_string(), "connection failed: refused");
    assert_eq!(TransportError::Timeout { duration_ms: 0 }.to_string(), "request timed out after 0ms");
    assert_eq!(
        EncodeError::UnsupportedContentType { content_type: "x/y".into() }.to_string(),
        "unsupported content type: x/y (supported: text/event-stream, application/x-ag-ui-proto)"
    );
    assert_eq!(AgentError::Aborted { reason: "stop".into() }.to_string(), "run aborted: stop");
    assert_eq!(AgentError::internal("boom", "x.rs:1").to_string(), "internal error: boom");
}

#[test]
fn wire_names_of_event_types_are_distinct() {
    let all = [
        EventType::TextMessageStart,
        EventType::TextMessageContent,
        EventType::TextMessageEnd,
        EventType::TextMessageChunk,
        EventType::ThinkingTextMessageStart,
        EventType::ThinkingTextMessageContent,
        EventType::ThinkingTextMessageEnd,
        EventType::ToolCallStart,
        EventType::ToolCallArgs,
        EventType::ToolCallEnd,
        EventType::ToolCallChunk,
        EventType::ToolCallResult,
        EventType::ThinkingStart,
        EventType::ThinkingEnd,
        EventType::StateSnapshot,
        EventType::StateDelta,
        EventType::MessagesSnapshot,
        EventType::Raw,
        EventType::Custom,
        EventType::RunStarted,
        EventType::RunFinished,
        EventType::RunError,
        EventType::StepStarted,
        EventType::StepFinished,
    ];
    let names: Vec<&str> = all.iter().map(|t| event_type_str(*t)).collect();
    for i in 0..names.len() {
        for j in 0..names.len() {
            assert_eq!(i == j, names[i] == names[j]);
        }
    }
    assert_eq!(event_type_str(EventType::ToolCallArgs), "TOOL_CALL_ARGS");
}
