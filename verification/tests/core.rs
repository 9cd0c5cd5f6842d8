use ag_ui::error::AgUiError;
use ag_ui::ids::{MessageId, ToolCallId};
use ag_ui::input::{Context, Tool};
use ag_ui::json::JsonValue;
use ag_ui::message::{
    AssistantMessage, DeveloperMessage, FunctionCall, Message, Role, SystemMessage, ToolCall, ToolMessage,
    UserMessage,
};

#[test]
fn test_message_types() {
    let dev_msg = DeveloperMessage::new(MessageId::random(), "dev content".to_string()).with_name("dev".to_string());
    assert_eq!(dev_msg.role, Role::Developer);
    assert_eq!(dev_msg.name, Some("dev".to_string()));

    let sys_msg = SystemMessage::new(MessageId::random(), "sys content".to_string()).with_name("sys".to_string());
    assert_eq!(sys_msg.role, Role::System);

    let user_msg = UserMessage::new(MessageId::random(), "user content".to_string()).with_name("user".to_string());
    assert_eq!(user_msg.role, Role::User);

    let tool_msg = ToolMessage::new(MessageId::random(), "result".to_string(), ToolCallId::random())
        .with_error("error".to_string());
    assert_eq!(tool_msg.role, Role::Tool);
    assert_eq!(tool_msg.error, Some("error".to_string()));
}

#[test]
fn test_tool_call_creation() {
    let function_call = FunctionCall { name: "test_function".to_string(), arguments: "{}".to_string() };

    let tool_call = ToolCall::new(ToolCallId::random(), function_call);
    assert_eq!(tool_call.call_type, "function");
}

#[test]
fn test_assistant_message_builder() {
    let msg = AssistantMessage::new(MessageId::random())
        .with_content("Hello".to_string())
        .with_name("Assistant".to_string());

    assert_eq!(msg.content, Some("Hello".to_string()));
    assert_eq!(msg.name, Some("Assistant".to_string()));
}

#[test]
fn test_context_and_tool() {
    let context = Context::new("test desc".to_string(), "test value".to_string());
    assert_eq!(context.description, "test desc");

    let tool = Tool::new(
        "test_tool".to_string(),
        "tool desc".to_string(),
        JsonValue::from_text(r#"{"type": "object"}"#),
    );
    assert_eq!(tool.name, "test_tool");
}

#[test]
fn test_agui_error() {
    let error = AgUiError::new("test error");
    assert_eq!(error.to_string(), "AG-UI Error: test error");
}

#[test]
fn message_new_has_role_id_and_content() {
    let id = MessageId::new("m-1");
    let msg = Message::new(Role::User, id.clone(), "hi");
    assert_eq!(msg.role(), Role::User);
    assert!(*msg.id() == id);
    assert_eq!(msg.content(), Some("hi"));
    assert!(msg.tool_calls().is_none());
}

#[test]
fn assistant_content_mut_creates_empty_content() {
    let mut msg = Message::Assistant {
        id: MessageId::new("a"),
        content: None,
        name: None,
        tool_calls: None,
        encrypted_value: None,
    };
    assert_eq!(msg.content(), None);
    msg.content_mut().unwrap().push_str("x");
    assert_eq!(msg.content(), Some("x"));
}

#[test]
fn tool_calls_mut_only_for_assistant() {
    let mut user = Message::new_user("hello");
    assert!(user.tool_calls_mut().is_none());
    let mut assistant = Message::new_assistant("hello");
    assert!(assistant.tool_calls_mut().is_some());
    assert_eq!(assistant.tool_calls().map(|c| c.len()), Some(0));
}

#[test]
fn json_null_text() {
    assert_eq!(JsonValue::null().as_text(), "null");
}
