//! Conversation messages: roles, tool calls and the message variants.

use crate::ids::{is_lower_hex, MessageId, ToolCallId};
use crate::json::JsonValue;
use vstd::prelude::*;

verus! {

/// A generated function call from a model.
#[derive(Debug, PartialEq)]
pub struct FunctionCall {
    pub name: String,
    pub arguments: String,
}

impl Clone for FunctionCall {
    fn clone(&self) -> (r: Self)
        ensures
            r == *self,
    {
        FunctionCall { name: self.name.clone(), arguments: self.arguments.clone() }
    }
}

/// A tool call made by the model: an id, the call type (`"function"`) and the
/// function call itself.
#[derive(Debug, PartialEq)]
pub struct ToolCall {
    pub id: ToolCallId,
    pub call_type: String,
    pub function: FunctionCall,
    pub encrypted_value: Option<String>,
}

impl ToolCall {
    /// A function tool call with the given id.
    pub fn new(id: ToolCallId, function: FunctionCall) -> (r: Self)
        ensures
            r.id == id,
            r.call_type@ == "function"@,
            r.function == function,
            r.encrypted_value is None,
    {
        ToolCall { id, call_type: String::from_str("function"), function, encrypted_value: None }
    }
}

impl Clone for ToolCall {
    fn clone(&self) -> (r: Self)
        ensures
            r == *self,
    {
        ToolCall {
            id: self.id.clone(),
            call_type: self.call_type.clone(),
            function: self.function.clone(),
            encrypted_value: self.encrypted_value.clone(),
        }
    }
}

/// Clones an optional string.
pub fn clone_opt_string(s: &Option<String>) -> (r: Option<String>)
    ensures
        r == *s,
{
    match s {
        Some(t) => Some(t.clone()),
        None => None,
    }
}

/// Clones a list of tool calls element by element.
pub fn clone_tool_calls(calls: &Vec<ToolCall>) -> (r: Vec<ToolCall>)
    ensures
        r@ == calls@,
{
    let mut out: Vec<ToolCall> = Vec::new();
    let mut i: usize = 0;
    while i < calls.len()
        invariant
            i <= calls.len(),
            out@ == calls@.subrange(0, i as int),
        decreases calls.len() - i,
    {
        out.push(calls[i].clone());
        i = i + 1;
    }
    assert(out@ =~= calls@);
    out
}

/// Message role.
#[derive(Debug, Clone, Copy, PartialEq, Eq, Structural)]
pub enum Role {
    Developer,
    System,
    Assistant,
    User,
    Tool,
    Activity,
    Reasoning,
}

impl Role {
    /// The developer role.
    pub fn developer() -> (r: Self)
        ensures
            r == Role::Developer,
    {
        Role::Developer
    }

    /// The system role.
    pub fn system() -> (r: Self)
        ensures
            r == Role::System,
    {
        Role::System
    }

    /// The assistant role.
    pub fn assistant() -> (r: Self)
        ensures
            r == Role::Assistant,
    {
        Role::Assistant
    }

    /// The user role.
    pub fn user() -> (r: Self)
        ensures
            r == Role::User,
    {
        Role::User
    }

    /// The tool role.
    pub fn tool() -> (r: Self)
        ensures
            r == Role::Tool,
    {
        Role::Tool
    }

    /// The activity role.
    pub fn activity() -> (r: Self)
        ensures
            r == Role::Activity,
    {
        Role::Activity
    }

    /// The reasoning role.
    pub fn reasoning() -> (r: Self)
        ensures
            r == Role::Reasoning,
    {
        Role::Reasoning
    }
}

/// A basic message, where the only content is an optional string.
#[derive(Debug, PartialEq)]
pub struct BaseMessage {
    pub id: MessageId,
    pub role: Role,
    pub content: Option<String>,
    pub name: Option<String>,
    pub encrypted_value: Option<String>,
}

/// A developer message (for debugging; not a system message).
#[derive(Debug, PartialEq)]
pub struct DeveloperMessage {
    pub id: MessageId,
    pub role: Role,
    pub content: String,
    pub name: Option<String>,
    pub encrypted_value: Option<String>,
}

impl DeveloperMessage {
    /// A developer message with the given id and content.
    pub fn new(id: MessageId, content: String) -> (r: Self)
        ensures
            r.id == id,
            r.role == Role::Developer,
            r.content == content,
            r.name is None,
            r.encrypted_value is None,
    {
        DeveloperMessage { id, role: Role::Developer, content, name: None, encrypted_value: None }
    }

    /// Sets the name.
    pub fn with_name(self, name: String) -> (r: Self)
        ensures
            r == (DeveloperMessage { name: Some(name), ..self }),
    {
        DeveloperMessage { name: Some(name), ..self }
    }

    /// Sets the encrypted value.
    pub fn with_encrypted_value(self, value: String) -> (r: Self)
        ensures
            r == (DeveloperMessage { encrypted_value: Some(value), ..self }),
    {
        DeveloperMessage { encrypted_value: Some(value), ..self }
    }
}

/// A system message; usually where the system prompt goes.
#[derive(Debug, PartialEq)]
pub struct SystemMessage {
    pub id: MessageId,
    pub role: Role,
    pub content: String,
    pub name: Option<String>,
    pub encrypted_value: Option<String>,
}

impl SystemMessage {
    /// A system message with the given id and content.
    pub fn new(id: MessageId, content: String) -> (r: Self)
        ensures
            r.id == id,
            r.role == Role::System,
            r.content == content,
            r.name is None,
            r.encrypted_value is None,
    {
        SystemMessage { id, role: Role::System, content, name: None, encrypted_value: None }
    }

    /// Sets the name.
    pub fn with_name(self, name: String) -> (r: Self)
        ensures
            r == (SystemMessage { name: Some(name), ..self }),
    {
        SystemMessage { name: Some(name), ..self }
    }

    /// Sets the encrypted value.
    pub fn with_encrypted_value(self, value: String) -> (r: Self)
        ensures
            r == (SystemMessage { encrypted_value: Some(value), ..self }),
    {
        SystemMessage { encrypted_value: Some(value), ..self }
    }
}

/// An assistant message (from the model).
#[derive(Debug, PartialEq)]
pub struct AssistantMessage {
    pub id: MessageId,
    pub role: Role,
    pub content: Option<String>,
    pub name: Option<String>,
    pub tool_calls: Option<Vec<ToolCall>>,
    pub encrypted_value: Option<String>,
}

impl AssistantMessage {
    /// An empty assistant message with the given id.
    pub fn new(id: MessageId) -> (r: Self)
        ensures
            r.id == id,
            r.role == Role::Assistant,
            r.content is None,
            r.name is None,
            r.tool_calls is None,
            r.encrypted_value is None,
    {
        AssistantMessage {
            id,
            role: Role::Assistant,
            content: None,
            name: None,
            tool_calls: None,
            encrypted_value: None,
        }
    }

    /// Sets the content.
    pub fn with_content(self, content: String) -> (r: Self)
        ensures
            r == (AssistantMessage { content: Some(content), ..self }),
    {
        AssistantMessage { content: Some(content), ..self }
    }

    /// Sets the name.
    pub fn with_name(self, name: String) -> (r: Self)
        ensures
            r == (AssistantMessage { name: Some(name), ..self }),
    {
        AssistantMessage { name: Some(name), ..self }
    }

    /// Sets the tool calls.
    pub fn with_tool_calls(self, tool_calls: Vec<ToolCall>) -> (r: Self)
        ensures
            r == (AssistantMessage { tool_calls: Some(tool_calls), ..self }),
    {
        AssistantMessage { tool_calls: Some(tool_calls), ..self }
    }

    /// Sets the encrypted value.
    pub fn with_encrypted_value(self, value: String) -> (r: Self)
        ensures
            r == (AssistantMessage { encrypted_value: Some(value), ..self }),
    {
        AssistantMessage { encrypted_value: Some(value), ..self }
    }
}

/// A user message.
#[derive(Debug, PartialEq)]
pub struct UserMessage {
    pub id: MessageId,
    pub role: Role,
    pub content: String,
    pub name: Option<String>,
    pub encrypted_value: Option<String>,
}

impl UserMessage {
    /// A user message with the given id and content.
    pub fn new(id: MessageId, content: String) -> (r: Self)
        ensures
            r.id == id,
            r.role == Role::User,
            r.content == content,
            r.name is None,
            r.encrypted_value is None,
    {
        UserMessage { id, role: Role::User, content, name: None, encrypted_value: None }
    }

    /// Sets the name.
    pub fn with_name(self, name: String) -> (r: Self)
        ensures
            r == (UserMessage { name: Some(name), ..self }),
    {
        UserMessage { name: Some(name), ..self }
    }

    /// Sets the encrypted value.
    pub fn with_encrypted_value(self, value: String) -> (r: Self)
        ensures
            r == (UserMessage { encrypted_value: Some(value), ..self }),
    {
        UserMessage { encrypted_value: Some(value), ..self }
    }
}

/// A tool call result.
#[derive(Debug, PartialEq)]
pub struct ToolMessage {
    pub id: MessageId,
    pub content: String,
    pub role: Role,
    pub tool_call_id: ToolCallId,
    pub error: Option<String>,
    pub encrypted_value: Option<String>,
}

impl ToolMessage {
    /// A tool result message for the given tool call.
    pub fn new(id: MessageId, content: String, tool_call_id: ToolCallId) -> (r: Self)
        ensures
            r.id == id,
            r.content == content,
            r.role == Role::Tool,
            r.tool_call_id == tool_call_id,
            r.error is None,
            r.encrypted_value is None,
    {
        ToolMessage { id, content, role: Role::Tool, tool_call_id, error: None, encrypted_value: None }
    }

    /// Sets the error.
    pub fn with_error(self, error: String) -> (r: Self)
        ensures
            r == (ToolMessage { error: Some(error), ..self }),
    {
        ToolMessage { error: Some(error), ..self }
    }
}

/// An activity message for structured progress updates.
#[derive(Debug, PartialEq)]
pub struct ActivityMessage {
    pub id: MessageId,
    pub role: Role,
    pub activity_type: String,
    pub content: JsonValue,
}

impl ActivityMessage {
    /// An activity message of the given type and content.
    pub fn new(id: MessageId, activity_type: String, content: JsonValue) -> (r: Self)
        ensures
            r.id == id,
            r.role == Role::Activity,
            r.activity_type == activity_type,
            r.content == content,
    {
        ActivityMessage { id, role: Role::Activity, activity_type, content }
    }
}

/// A reasoning message for chain-of-thought content.
#[derive(Debug, PartialEq)]
pub struct ReasoningMessage {
    pub id: MessageId,
    pub role: Role,
    pub content: String,
    pub encrypted_value: Option<String>,
}

impl ReasoningMessage {
    /// A reasoning message with the given id and content.
    pub fn new(id: MessageId, content: String) -> (r: Self)
        ensures
            r.id == id,
            r.role == Role::Reasoning,
            r.content == content,
            r.encrypted_value is None,
    {
        ReasoningMessage { id, role: Role::Reasoning, content, encrypted_value: None }
    }

    /// Sets the encrypted value.
    pub fn with_encrypted_value(self, value: String) -> (r: Self)
        ensures
            r == (ReasoningMessage { encrypted_value: Some(value), ..self }),
    {
        ReasoningMessage { encrypted_value: Some(value), ..self }
    }
}

impl Clone for BaseMessage {
    fn clone(&self) -> (r: Self)
        ensures
            r == *self,
    {
        BaseMessage {
            id: self.id.clone(),
            role: self.role,
            content: clone_opt_string(&self.content),
            name: clone_opt_string(&self.name),
            encrypted_value: clone_opt_string(&self.encrypted_value),
        }
    }
}

impl Clone for DeveloperMessage {
    fn clone(&self) -> (r: Self)
        ensures
            r == *self,
    {
        DeveloperMessage {
            id: self.id.clone(),
            role: self.role,
            content: self.content.clone(),
            name: clone_opt_string(&self.name),
            encrypted_value: clone_opt_string(&self.encrypted_value),
        }
    }
}

impl Clone for SystemMessage {
    fn clone(&self) -> (r: Self)
        ensures
            r == *self,
    {
        SystemMessage {
            id: self.id.clone(),
            role: self.role,
            content: self.content.clone(),
            name: clone_opt_string(&self.name),
            encrypted_value: clone_opt_string(&self.encrypted_value),
        }
    }
}

impl Clone for AssistantMessage {
    fn clone(&self) -> (r: Self)
        ensures
            r.id == self.id,
            r.role == self.role,
            r.content == self.content,
            r.name == self.name,
            r.encrypted_value == self.encrypted_value,
            match (r.tool_calls, self.tool_calls) {
                (Some(a), Some(b)) => a@ == b@,
                (None, None) => true,
                _ => false,
            },
    {
        let calls = match &self.tool_calls {
            Some(c) => Some(clone_tool_calls(c)),
            None => None,
        };
        AssistantMessage {
            id: self.id.clone(),
            role: self.role,
            content: clone_opt_string(&self.content),
            name: clone_opt_string(&self.name),
            tool_calls: calls,
            encrypted_value: clone_opt_string(&self.encrypted_value),
        }
    }
}

impl Clone for UserMessage {
    fn clone(&self) -> (r: Self)
        ensures
            r == *self,
    {
        UserMessage {
            id: self.id.clone(),
            role: self.role,
            content: self.content.clone(),
            name: clone_opt_string(&self.name),
            encrypted_value: clone_opt_string(&self.encrypted_value),
        }
    }
}

impl Clone for ToolMessage {
    fn clone(&self) -> (r: Self)
        ensures
            r == *self,
    {
        ToolMessage {
            id: self.id.clone(),
            content: self.content.clone(),
            role: self.role,
            tool_call_id: self.tool_call_id.clone(),
            error: clone_opt_string(&self.error),
            encrypted_value: clone_opt_string(&self.encrypted_value),
        }
    }
}

impl Clone for ActivityMessage {
    fn clone(&self) -> (r: Self)
        ensures
            r == *self,
    {
        ActivityMessage {
            id: self.id.clone(),
            role: self.role,
            activity_type: self.activity_type.clone(),
            content: self.content.clone(),
        }
    }
}

impl Clone for ReasoningMessage {
    fn clone(&self) -> (r: Self)
        ensures
            r == *self,
    {
        ReasoningMessage {
            id: self.id.clone(),
            role: self.role,
            content: self.content.clone(),
            encrypted_value: clone_opt_string(&self.encrypted_value),
        }
    }
}

/// The message variants, discriminated by role.
#[derive(Debug, PartialEq)]
pub enum Message {
    Developer {
        id: MessageId,
        content: String,
        name: Option<String>,
        encrypted_value: Option<String>,
    },
    System {
        id: MessageId,
        content: String,
        name: Option<String>,
        encrypted_value: Option<String>,
    },
    Assistant {
        id: MessageId,
        content: Option<String>,
        name: Option<String>,
        tool_calls: Option<Vec<ToolCall>>,
        encrypted_value: Option<String>,
    },
    User {
        id: MessageId,
        content: String,
        name: Option<String>,
        encrypted_value: Option<String>,
    },
    Tool {
        id: MessageId,
        content: String,
        tool_call_id: ToolCallId,
        error: Option<String>,
        encrypted_value: Option<String>,
    },
    Activity { id: MessageId, activity_type: String, content: JsonValue },
    Reasoning { id: MessageId, content: String, encrypted_value: Option<String> },
}

impl Message {
    /// `self` and `other` are the same message: equal in every field, the
    /// tool call lists compared element by element.
    pub open spec fn same_as(&self, other: &Message) -> bool {
        match (self, other) {
            (
                Message::Assistant { id: i1, content: c1, name: n1, tool_calls: t1, encrypted_value: e1 },
                Message::Assistant { id: i2, content: c2, name: n2, tool_calls: t2, encrypted_value: e2 },
            ) => i1 == i2 && c1 == c2 && n1 == n2 && e1 == e2 && match (t1, t2) {
                (Some(a), Some(b)) => a@ == b@,
                (None, None) => true,
                _ => false,
            },
            _ => self == other,
        }
    }
}

impl Clone for Message {
    fn clone(&self) -> (r: Self)
        ensures
            r.same_as(self),
    {
        match self {
            Message::Developer { id, content, name, encrypted_value } => {
                Message::Developer {
                    id: id.clone(),
                    content: content.clone(),
                    name: clone_opt_string(name),
                    encrypted_value: clone_opt_string(encrypted_value),
                }
            },
            Message::System { id, content, name, encrypted_value } => Message::System {
                id: id.clone(),
                content: content.clone(),
                name: clone_opt_string(name),
                encrypted_value: clone_opt_string(encrypted_value),
            },
            Message::Assistant { id, content, name, tool_calls, encrypted_value } => {
                let calls = match tool_calls {
                    Some(c) => Some(clone_tool_calls(c)),
                    None => None,
                };
                Message::Assistant {
                    id: id.clone(),
                    content: clone_opt_string(content),
                    name: clone_opt_string(name),
                    tool_calls: calls,
                    encrypted_value: clone_opt_string(encrypted_value),
                }
            },
            Message::User { id, content, name, encrypted_value } => Message::User {
                id: id.clone(),
                content: content.clone(),
                name: clone_opt_string(name),
                encrypted_value: clone_opt_string(encrypted_value),
            },
            Message::Tool { id, content, tool_call_id, error, encrypted_value } => Message::Tool {
                id: id.clone(),
                content: content.clone(),
                tool_call_id: tool_call_id.clone(),
                error: clone_opt_string(error),
                encrypted_value: clone_opt_string(encrypted_value),
            },
            Message::Activity { id, activity_type, content } => Message::Activity {
                id: id.clone(),
                activity_type: activity_type.clone(),
                content: content.clone(),
            },
            Message::Reasoning { id, content, encrypted_value } => Message::Reasoning {
                id: id.clone(),
                content: content.clone(),
                encrypted_value: clone_opt_string(encrypted_value),
            },
        }
    }
}

/// Two message lists hold the same messages in the same order.
pub open spec fn same_messages(a: Seq<Message>, b: Seq<Message>) -> bool {
    a.len() == b.len() && forall|i: int| 0 <= i < a.len() ==> (#[trigger] a[i]).same_as(&b[i])
}

/// Clones a list of messages element by element.
pub fn clone_messages(messages: &Vec<Message>) -> (r: Vec<Message>)
    ensures
        same_messages(r@, messages@),
{
    let mut out: Vec<Message> = Vec::new();
    let mut i: usize = 0;
    while i < messages.len()
        invariant
            i <= messages.len(),
            out@.len() == i,
            forall|j: int| 0 <= j < i ==> (#[trigger] out@[j]).same_as(&messages@[j]),
        decreases messages.len() - i,
    {
        out.push(messages[i].clone());
        i = i + 1;
    }
    out
}

impl Message {
    /// The message's id.
    pub open spec fn spec_id(&self) -> MessageId {
        match self {
            Message::Developer { id, .. } => *id,
            Message::System { id, .. } => *id,
            Message::Assistant { id, .. } => *id,
            Message::User { id, .. } => *id,
            Message::Tool { id, .. } => *id,
            Message::Activity { id, .. } => *id,
            Message::Reasoning { id, .. } => *id,
        }
    }

    /// The message's role.
    pub open spec fn spec_role(&self) -> Role {
        match self {
            Message::Developer { .. } => Role::Developer,
            Message::System { .. } => Role::System,
            Message::Assistant { .. } => Role::Assistant,
            Message::User { .. } => Role::User,
            Message::Tool { .. } => Role::Tool,
            Message::Activity { .. } => Role::Activity,
            Message::Reasoning { .. } => Role::Reasoning,
        }
    }

    /// The message's text content, if it has one.
    pub open spec fn spec_content(&self) -> Option<Seq<char>> {
        match self {
            Message::Developer { content, .. } => Some(content@),
            Message::System { content, .. } => Some(content@),
            Message::User { content, .. } => Some(content@),
            Message::Tool { content, .. } => Some(content@),
            Message::Assistant { content, .. } => match content {
                Some(c) => Some(c@),
                None => None,
            },
            Message::Activity { .. } => None,
            Message::Reasoning { content, .. } => Some(content@),
        }
    }

    /// The message's tool calls: those of an assistant message that has any.
    pub open spec fn spec_tool_calls(&self) -> Option<Seq<ToolCall>> {
        match self {
            Message::Assistant { tool_calls, .. } => match tool_calls {
                Some(c) => Some(c@),
                None => None,
            },
            _ => None,
        }
    }

    /// A message of the given role with the given id and content.
    ///
    /// A tool message gets a random tool call id; an activity message gets an
    /// empty type and `null` content.
    pub fn new(role: Role, id: MessageId, content: &str) -> (r: Self)
        ensures
            r.spec_role() == role,
            r.spec_id() == id,
            role != Role::Activity ==> r.spec_content() == Some(content@),
            r.spec_tool_calls() is None,
            match r {
                Message::Developer { name, encrypted_value, .. } => name is None && encrypted_value is None,
                Message::System { name, encrypted_value, .. } => name is None && encrypted_value is None,
                Message::User { name, encrypted_value, .. } => name is None && encrypted_value is None,
                Message::Assistant { name, encrypted_value, .. } => name is None && encrypted_value is None,
                Message::Tool { tool_call_id, error, encrypted_value, .. } => tool_call_id.0@.len() == 13
                    && tool_call_id.0@.subrange(0, 5) == "call_"@ && (forall|i: int|
                    5 <= i < 13 ==> is_lower_hex(#[trigger] tool_call_id.0@[i])) && error is None
                    && encrypted_value is None,
                Message::Activity { activity_type, content, .. } => activity_type@.len() == 0
                    && content.text() == "null"@,
                Message::Reasoning { encrypted_value, .. } => encrypted_value is None,
            },
    {
        match role {
            Role::Developer => Message::Developer {
                id,
                content: content.to_owned(),
                name: None,
                encrypted_value: None,
            },
            Role::System => Message::System {
                id,
                content: content.to_owned(),
                name: None,
                encrypted_value: None,
            },
            Role::Assistant => Message::Assistant {
                id,
                content: Some(content.to_owned()),
                name: None,
                tool_calls: None,
                encrypted_value: None,
            },
            Role::User => Message::User {
                id,
                content: content.to_owned(),
                name: None,
                encrypted_value: None,
            },
            Role::Tool => Message::Tool {
                id,
                content: content.to_owned(),
                tool_call_id: ToolCallId::random(),
                error: None,
                encrypted_value: None,
            },
            Role::Activity => Message::Activity {
                id,
                activity_type: String::new(),
                content: JsonValue::null(),
            },
            Role::Reasoning => Message::Reasoning {
                id,
                content: content.to_owned(),
                encrypted_value: None,
            },
        }
    }

    /// A user message with a random id.
    pub fn new_user(content: &str) -> (r: Self)
        ensures
            r.spec_role() == Role::User,
            r.spec_content() == Some(content@),
    {
        Self::new(Role::User, MessageId::random(), content)
    }

    /// A tool message with a random id.
    pub fn new_tool(content: &str) -> (r: Self)
        ensures
            r.spec_role() == Role::Tool,
            r.spec_content() == Some(content@),
    {
        Self::new(Role::Tool, MessageId::random(), content)
    }

    /// A system message with a random id.
    pub fn new_system(content: &str) -> (r: Self)
        ensures
            r.spec_role() == Role::System,
            r.spec_content() == Some(content@),
    {
        Self::new(Role::System, MessageId::random(), content)
    }

    /// An assistant message with a random id.
    pub fn new_assistant(content: &str) -> (r: Self)
        ensures
            r.spec_role() == Role::Assistant,
            r.spec_content() == Some(content@),
            r.spec_tool_calls() is None,
    {
        Self::new(Role::Assistant, MessageId::random(), content)
    }

    /// A developer message with a random id.
    pub fn new_developer(content: &str) -> (r: Self)
        ensures
            r.spec_role() == Role::Developer,
            r.spec_content() == Some(content@),
    {
        Self::new(Role::Developer, MessageId::random(), content)
    }

    /// The message's id.
    pub fn id(&self) -> (r: &MessageId)
        ensures
            *r == self.spec_id(),
    {
        match self {
            Message::Developer { id, .. } => id,
            Message::System { id, .. } => id,
            Message::Assistant { id, .. } => id,
            Message::User { id, .. } => id,
            Message::Tool { id, .. } => id,
            Message::Activity { id, .. } => id,
            Message::Reasoning { id, .. } => id,
        }
    }

    /// The message's role.
    pub fn role(&self) -> (r: Role)
        ensures
            r == self.spec_role(),
    {
        match self {
            Message::Developer { .. } => Role::Developer,
            Message::System { .. } => Role::System,
            Message::Assistant { .. } => Role::Assistant,
            Message::User { .. } => Role::User,
            Message::Tool { .. } => Role::Tool,
            Message::Activity { .. } => Role::Activity,
            Message::Reasoning { .. } => Role::Reasoning,
        }
    }

    /// The message's text content; none for an activity message or an
    /// assistant message without content.
    pub fn content(&self) -> (r: Option<&str>)
        ensures
            match r {
                Some(s) => self.spec_content() == Some(s@),
                None => self.spec_content() is None,
            },
    {
        match self {
            Message::Developer { content, .. } => Some(content.as_str()),
            Message::System { content, .. } => Some(content.as_str()),
            Message::User { content, .. } => Some(content.as_str()),
            Message::Tool { content, .. } => Some(content.as_str()),
            Message::Assistant { content, .. } => match content {
                Some(c) => Some(c.as_str()),
                None => None,
            },
            Message::Activity { .. } => None,
            Message::Reasoning { content, .. } => Some(content.as_str()),
        }
    }

    /// The message with its text content replaced by `c` (unchanged for an
    /// activity message).
    pub open spec fn with_content_spec(self, c: String) -> Message {
        match self {
            Message::Developer { id, name, encrypted_value, .. } => Message::Developer {
                id,
                content: c,
                name,
                encrypted_value,
            },
            Message::System { id, name, encrypted_value, .. } => Message::System {
                id,
                content: c,
                name,
                encrypted_value,
            },
            Message::User { id, name, encrypted_value, .. } => Message::User {
                id,
                content: c,
                name,
                encrypted_value,
            },
            Message::Tool { id, tool_call_id, error, encrypted_value, .. } => Message::Tool {
                id,
                content: c,
                tool_call_id,
                error,
                encrypted_value,
            },
            Message::Assistant { id, name, tool_calls, encrypted_value, .. } => Message::Assistant {
                id,
                content: Some(c),
                name,
                tool_calls,
                encrypted_value,
            },
            Message::Activity { .. } => self,
            Message::Reasoning { id, encrypted_value, .. } => Message::Reasoning {
                id,
                content: c,
                encrypted_value,
            },
        }
    }

    /// Mutable access to the text content.  An assistant message without
    /// content first gets empty content; an activity message has none.
    pub fn content_mut(&mut self) -> (r: Option<&mut String>)
        ensures
            (old(self).spec_role() == Role::Activity) <==> r is None,
            r is None ==> *final(self) == *old(self),
            match r {
                Some(c) => {
                    &&& (*c)@ == match old(self).spec_content() {
                        Some(t) => t,
                        None => Seq::<char>::empty(),
                    }
                    &&& *final(self) == old(self).with_content_spec(*final(c))
                },
                None => true,
            },
    {
        match self {
            Message::Developer { content, .. } => Some(content),
            Message::System { content, .. } => Some(content),
            Message::User { content, .. } => Some(content),
            Message::Tool { content, .. } => Some(content),
            Message::Assistant { content, .. } => {
                if content.is_none() {
                    *content = Some(String::new());
                }
                content.as_mut()
            },
            Message::Activity { .. } => None,
            Message::Reasoning { content, .. } => Some(content),
        }
    }

    /// Mutable access to the id.
    pub fn id_mut(&mut self) -> (r: &mut MessageId)
        ensures
            *r == old(self).spec_id(),
            *final(self) == old(self).with_id_spec(*final(r)),
    {
        match self {
            Message::Developer { id, .. } => id,
            Message::System { id, .. } => id,
            Message::Assistant { id, .. } => id,
            Message::User { id, .. } => id,
            Message::Tool { id, .. } => id,
            Message::Activity { id, .. } => id,
            Message::Reasoning { id, .. } => id,
        }
    }

    /// The message with its id replaced by `i`.
    pub open spec fn with_id_spec(self, i: MessageId) -> Message {
        match self {
            Message::Developer { content, name, encrypted_value, .. } => Message::Developer {
                id: i,
                content,
                name,
                encrypted_value,
            },
            Message::System { content, name, encrypted_value, .. } => Message::System {
                id: i,
                content,
                name,
                encrypted_value,
            },
            Message::User { content, name, encrypted_value, .. } => Message::User {
                id: i,
                content,
                name,
                encrypted_value,
            },
            Message::Tool { content, tool_call_id, error, encrypted_value, .. } => Message::Tool {
                id: i,
                content,
                tool_call_id,
                error,
                encrypted_value,
            },
            Message::Assistant { content, name, tool_calls, encrypted_value, .. } => Message::Assistant {
                id: i,
                content,
                name,
                tool_calls,
                encrypted_value,
            },
            Message::Activity { activity_type, content, .. } => Message::Activity {
                id: i,
                activity_type,
                content,
            },
            Message::Reasoning { content, encrypted_value, .. } => Message::Reasoning {
                id: i,
                content,
                encrypted_value,
            },
        }
    }

    /// An assistant message with its tool call list replaced by `calls`.
    pub open spec fn with_tool_calls_spec(self, calls: Vec<ToolCall>) -> Message {
        match self {
            Message::Assistant { id, content, name, encrypted_value, .. } => Message::Assistant {
                id,
                content,
                name,
                tool_calls: Some(calls),
                encrypted_value,
            },
            _ => self,
        }
    }

    /// Mutable access to the tool calls of an assistant message, which first
    /// gets an empty list if it has none; other messages have none.
    pub fn tool_calls_mut(&mut self) -> (r: Option<&mut Vec<ToolCall>>)
        ensures
            (old(self).spec_role() == Role::Assistant) <==> r is Some,
            r is None ==> *final(self) == *old(self),
            match r {
                Some(c) => {
                    &&& (*c)@ == match old(self).spec_tool_calls() {
                        Some(t) => t,
                        None => Seq::<ToolCall>::empty(),
                    }
                    &&& *final(self) == old(self).with_tool_calls_spec(*final(c))
                },
                None => true,
            },
    {
        match self {
            Message::Assistant { tool_calls, .. } => {
                if tool_calls.is_none() {
                    *tool_calls = Some(Vec::new());
                }
                tool_calls.as_mut()
            },
            _ => None,
        }
    }

    /// The tool calls of an assistant message, if it has any.
    pub fn tool_calls(&self) -> (r: Option<&[ToolCall]>)
        ensures
            match r {
                Some(s) => self.spec_tool_calls() == Some(s@),
                None => self.spec_tool_calls() is None,
            },
    {
        match self {
            Message::Assistant { tool_calls, .. } => match tool_calls {
                Some(c) => Some(c.as_slice()),
                None => None,
            },
            _ => None,
        }
    }
}

} // verus!
