use ag_ui::ids::{MessageId, RunId, ThreadId, ToolCallId};
use std::collections::HashMap;
use uuid::Uuid;

#[test]
fn test_tool_call_random() {
    let id = ToolCallId::random();
    assert_eq!(id.0.len(), 5 + 8);
    assert!(id.0.starts_with("call_"));
}

#[test]
fn test_display_preserves_original() {
    let langgraph_id = "lc_run--019bcffd-726e-7ca1-9708-98f26a168272";
    let id = MessageId::new(langgraph_id);
    assert_eq!(id.to_string(), langgraph_id);
}

#[test]
fn test_display_shows_uuid_for_valid_uuid() {
    let uuid_str = "550e8400-e29b-41d4-a716-446655440000";
    let id = MessageId::new(uuid_str);
    assert_eq!(id.to_string(), uuid_str);
    assert!(!id.was_coerced());
}

#[test]
fn test_was_coerced_flag() {
    let uuid_id = MessageId::new("550e8400-e29b-41d4-a716-446655440000");
    assert!(!uuid_id.was_coerced());
    assert!(uuid_id.original_string().is_none());

    let coerced_id = MessageId::new("not-a-uuid");
    assert!(coerced_id.was_coerced());
    assert_eq!(coerced_id.original_string(), Some("not-a-uuid"));
}

#[test]
fn test_as_uuid_always_available() {
    let uuid_str = "550e8400-e29b-41d4-a716-446655440000";
    let uuid_id = MessageId::new(uuid_str);
    assert_eq!(uuid_id.as_uuid(), Uuid::parse_str(uuid_str).unwrap().as_u128());

    let coerced_id = MessageId::new("not-a-uuid");
    let uuid = Uuid::from_u128(coerced_id.as_uuid());
    assert!(!uuid.is_nil());
}

#[test]
fn test_hash_consistency() {
    let id1 = ThreadId::new("lc_run--abc");
    let id2 = ThreadId::new("lc_run--abc");

    let mut map = HashMap::new();
    map.insert(id1.clone(), "value1");

    assert_eq!(map.get(&id2), Some(&"value1"));
}

#[test]
fn test_equality_with_string() {
    let langgraph_id = "lc_run--019bcffd-726e-7ca1-9708-98f26a168272";
    let id = MessageId::new(langgraph_id);
    assert!(id == *langgraph_id);
}

#[test]
fn test_from_uuid() {
    let uuid = Uuid::new_v4();
    let id = MessageId::from_uuid(uuid.as_u128());

    assert!(!id.was_coerced());
    assert_eq!(id.as_uuid(), uuid.as_u128());
}

#[test]
fn test_into_uuid() {
    let original_uuid = Uuid::new_v4();
    let id = MessageId::from_uuid(original_uuid.as_u128());
    let recovered = Uuid::from_u128(id.as_uuid());

    assert_eq!(original_uuid, recovered);
}

#[test]
fn test_from_str_accepts_any_string() {
    let id: MessageId = "not-a-uuid".parse().unwrap();
    assert!(id.was_coerced());

    let id2: MessageId = "550e8400-e29b-41d4-a716-446655440000".parse().unwrap();
    assert!(!id2.was_coerced());
}

#[test]
fn test_uuid_v5_is_deterministic() {
    let input = "lc_run--019bcffd-726e-7ca1-9708-98f26a168272";

    let id1 = MessageId::new(input);
    let id2 = MessageId::new(input);

    assert_eq!(id1.as_uuid(), id2.as_uuid());

    let expected = Uuid::new_v5(&Uuid::NAMESPACE_OID, input.as_bytes());
    assert_eq!(id1.as_uuid(), expected.as_u128());
}

#[test]
fn run_id_from_text_is_equal_to_same_text() {
    let a = RunId::new("my-custom-run-id-123");
    let b = RunId::new("my-custom-run-id-123");
    assert!(a == b);
    assert!(a.was_coerced());
    assert_eq!(a.to_string(), "my-custom-run-id-123");
}

#[test]
fn id_text_round_trips_through_new() {
    let random = MessageId::random();
    let again = MessageId::new(&random.to_string());
    assert!(random == again);
    assert!(!again.was_coerced());
    assert_eq!(random.to_string().len(), 36);
}

#[test]
fn uuid_text_in_other_case_is_the_same_id() {
    let lower = MessageId::new("550e8400-e29b-41d4-a716-446655440000");
    assert!(lower == *"550E8400-E29B-41D4-A716-446655440000");
    assert!(!(lower == *"something-else"));
}

#[test]
fn tool_call_id_keeps_text() {
    let id = ToolCallId::new("call_abc");
    assert_eq!(id.as_str(), "call_abc");
    assert_eq!(id.to_string(), "call_abc");
    assert!(id == ToolCallId::new("call_abc"));
}

#[test]
fn tool_call_random_tail_is_lower_hex() {
    let id = ToolCallId::random();
    assert!(id.0[5..].chars().all(|c| c.is_ascii_digit() || ('a'..='f').contains(&c)));
}

#[test]
fn uuid_is_written_lower_case_hyphenated() {
    let id = MessageId::from_uuid(0x550E8400E29B41D4A716446655440000u128);
    assert_eq!(id.to_string(), "550e8400-e29b-41d4-a716-446655440000");
    let upper = MessageId::new("550E8400-E29B-41D4-A716-446655440000");
    assert_eq!(upper.to_string(), "550e8400-e29b-41d4-a716-446655440000");
}

#[test]
fn random_ids_are_version_4_uuids() {
    for _ in 0..16 {
        let id = MessageId::random();
        let uuid = Uuid::from_u128(id.as_uuid());
        assert_eq!(uuid.get_version_num(), 4);
        assert_eq!(uuid.get_variant(), uuid::Variant::RFC4122);
        assert!(!id.was_coerced());
    }
}
