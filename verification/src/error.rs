//! Error types of the protocol core and of the server SDK, with their
//! messages.

use vstd::prelude::*;

verus! {

/// An AG-UI error with a message.
#[derive(Debug, PartialEq)]
pub struct AgUiError {
    pub message: String,
}

impl Clone for AgUiError {
    fn clone(&self) -> (r: Self)
        ensures
            r == *self,
    {
        AgUiError { message: self.message.clone() }
    }
}

impl AgUiError {
    /// An error with the given message.
    pub fn new(message: &str) -> (r: Self)
        ensures
            r.message@ == message@,
    {
        AgUiError { message: message.to_owned() }
    }

    /// The error for JSON text that failed to parse, given the parser's
    /// description of the failure.
    pub fn json_parse_failure(detail: &str) -> (r: Self)
        ensures
            r.message@ == "Failed to parse JSON: "@ + detail@,
    {
        let mut message = String::from_str("Failed to parse JSON: ");
        message.append(detail);
        AgUiError { message }
    }

    /// The error's display text.
    pub fn to_string(&self) -> (r: String)
        ensures
            r@ == "AG-UI Error: "@ + self.message@,
    {
        let mut out = String::from_str("AG-UI Error: ");
        out.append(self.message.as_str());
        out
    }
}

/// Result type with [`AgUiError`].
pub type Result<T> = core::result::Result<T, AgUiError>;

/// The base AG-UI error.
#[derive(Debug, PartialEq)]
pub struct AGUIError(pub String);

impl Clone for AGUIError {
    fn clone(&self) -> (r: Self)
        ensures
            r == *self,
    {
        AGUIError(self.0.clone())
    }
}

impl AGUIError {
    /// The error's display text.
    pub fn to_string(&self) -> (r: String)
        ensures
            r@ == "AGUIError: "@ + self.0@,
    {
        let mut out = String::from_str("AGUIError: ");
        out.append(self.0.as_str());
        out
    }
}

/// The error raised when `connect()` is not implemented.
#[derive(Debug, PartialEq)]
pub struct AGUIConnectNotImplementedError;

impl Clone for AGUIConnectNotImplementedError {
    fn clone(&self) -> (r: Self)
        ensures
            r == *self,
    {
        AGUIConnectNotImplementedError
    }
}

impl AGUIConnectNotImplementedError {
    /// The error's display text.
    pub fn to_string(&self) -> (r: String)
        ensures
            r@ == "Connect not implemented. This method is not supported by the current agent."@,
    {
        String::from_str("Connect not implemented. This method is not supported by the current agent.")
    }
}

/// Top-level errors from agent execution.
#[derive(Debug, PartialEq)]
pub enum AgentError {
    /// The run was cancelled (abort signal or client disconnect).
    Aborted { reason: String },
    /// An event broke a protocol constraint.
    ProtocolViolation { event_type: &'static str, violation: String },
    /// A state operation failed.
    State(StateError),
    /// Encoding an event failed.
    Encoding(EncodeError),
    /// A transport-level failure.
    Transport(TransportError),
    /// An error from an agent implementation, with the text of its source
    /// error if there is one.
    Custom { message: String, source: Option<String> },
    /// An unexpected internal condition, with the code location.
    Internal { message: String, location: &'static str },
}

impl Clone for AgentError {
    fn clone(&self) -> (r: Self)
        ensures
            r == *self,
    {
        match self {
            AgentError::Aborted { reason } => AgentError::Aborted { reason: reason.clone() },
            AgentError::ProtocolViolation { event_type, violation } => AgentError::ProtocolViolation {
                event_type: *event_type,
                violation: violation.clone(),
            },
            AgentError::State(e) => AgentError::State(e.clone()),
            AgentError::Encoding(e) => AgentError::Encoding(e.clone()),
            AgentError::Transport(e) => AgentError::Transport(e.clone()),
            AgentError::Custom { message, source } => AgentError::Custom {
                message: message.clone(),
                source: match source {
                    Some(t) => Some(t.clone()),
                    None => None,
                },
            },
            AgentError::Internal { message, location } => AgentError::Internal {
                message: message.clone(),
                location: *location,
            },
        }
    }
}

/// Result type for agent operations.
pub type AgentResult<T> = core::result::Result<T, AgentError>;

impl AgentError {
    /// A custom error with a message and no source.
    pub fn custom(message: &str) -> (r: Self)
        ensures
            r matches AgentError::Custom { message: m, source } && m@ == message@ && source is None,
    {
        AgentError::Custom { message: message.to_owned(), source: None }
    }

    /// A custom error with a message and the text of its source error.
    pub fn custom_with_source(message: &str, source: &str) -> (r: Self)
        ensures
            r matches AgentError::Custom { message: m, source: Some(s) } && m@ == message@ && s@ == source@,
    {
        AgentError::Custom { message: message.to_owned(), source: Some(source.to_owned()) }
    }

    /// An internal error at the given code location.
    pub fn internal(message: &str, location: &'static str) -> (r: Self)
        ensures
            r matches AgentError::Internal { message: m, location: l } && m@ == message@ && l == location,
    {
        AgentError::Internal { message: message.to_owned(), location }
    }

    /// Whether the error is a cancellation.
    pub fn is_cancelled(&self) -> (r: bool)
        ensures
            r == (self is Aborted),
    {
        match self {
            AgentError::Aborted { .. } => true,
            _ => false,
        }
    }

    /// Whether the client can retry: a cancellation or a transport timeout.
    pub fn is_recoverable(&self) -> (r: bool)
        ensures
            r == (self is Aborted || self matches AgentError::Transport(TransportError::Timeout { .. })),
    {
        match self {
            AgentError::Aborted { .. } => true,
            AgentError::Transport(TransportError::Timeout { .. }) => true,
            _ => false,
        }
    }
}

/// Errors during event encoding.
#[derive(Debug, PartialEq)]
pub enum EncodeError {
    /// JSON serialization failed for the named event type; `source` is the
    /// serializer's description of the failure.
    Json { event_type: &'static str, source: String },
    /// The requested content type is not supported.
    UnsupportedContentType { content_type: String },
    /// The encoded event is larger than the limit.
    EventTooLarge { size: usize, max: usize },
}

impl Clone for EncodeError {
    fn clone(&self) -> (r: Self)
        ensures
            r == *self,
    {
        match self {
            EncodeError::Json { event_type, source } => EncodeError::Json {
                event_type: *event_type,
                source: source.clone(),
            },
            EncodeError::UnsupportedContentType { content_type } => EncodeError::UnsupportedContentType {
                content_type: content_type.clone(),
            },
            EncodeError::EventTooLarge { size, max } => EncodeError::EventTooLarge { size: *size, max: *max },
        }
    }
}

/// Result type for encoding operations.
pub type EncodeResult<T> = core::result::Result<T, EncodeError>;

impl EncodeError {
    /// A JSON encoding error for the named event type.
    pub fn json(event_type: &'static str, source: &str) -> (r: Self)
        ensures
            r matches EncodeError::Json { event_type: t, source: s } && t == event_type && s@ == source@,
    {
        EncodeError::Json { event_type, source: source.to_owned() }
    }
}

/// Errors during state management.
#[derive(Debug, PartialEq)]
pub enum StateError {
    /// A JSON Patch operation failed.
    PatchFailed { op: String, path: String, reason: String },
    /// A patch document failed to parse.
    InvalidPatch { reason: String },
    /// The state lock was poisoned by a panic in another thread.
    MutexPoisoned,
    /// A referenced message does not exist.
    MessageNotFound { id: String },
    /// A message id already exists.
    DuplicateMessage { id: String },
    /// A referenced tool call does not exist in a message.
    ToolCallNotFound { id: String, message_id: String },
    /// State (de)serialization failed.
    Serialization { reason: String },
}

impl Clone for StateError {
    fn clone(&self) -> (r: Self)
        ensures
            r == *self,
    {
        match self {
            StateError::PatchFailed { op, path, reason } => StateError::PatchFailed {
                op: op.clone(),
                path: path.clone(),
                reason: reason.clone(),
            },
            StateError::InvalidPatch { reason } => StateError::InvalidPatch { reason: reason.clone() },
            StateError::MutexPoisoned => StateError::MutexPoisoned,
            StateError::MessageNotFound { id } => StateError::MessageNotFound { id: id.clone() },
            StateError::DuplicateMessage { id } => StateError::DuplicateMessage { id: id.clone() },
            StateError::ToolCallNotFound { id, message_id } => StateError::ToolCallNotFound {
                id: id.clone(),
                message_id: message_id.clone(),
            },
            StateError::Serialization { reason } => StateError::Serialization { reason: reason.clone() },
        }
    }
}

/// Result type for state operations.
pub type StateResult<T> = core::result::Result<T, StateError>;

/// The display text of a state error.
pub open spec fn state_error_text(e: StateError) -> Seq<char> {
    match e {
        StateError::PatchFailed { op, path, reason } => "patch failed: "@ + op@ + " at '"@ + path@ + "' - "@
            + reason@,
        StateError::InvalidPatch { reason } => "invalid patch document: "@ + reason@,
        StateError::MutexPoisoned => "state mutex poisoned - concurrent panic detected, state may be corrupted"@,
        StateError::MessageNotFound { id } => "message '"@ + id@ + "' not found in conversation state"@,
        StateError::DuplicateMessage { id } => "duplicate message id: '"@ + id@ + "' already exists"@,
        StateError::ToolCallNotFound { id, message_id } => "tool call '"@ + id@ + "' not found in message '"@
            + message_id@ + "'"@,
        StateError::Serialization { reason } => "state serialization failed: "@ + reason@,
    }
}

impl StateError {
    /// The error's display text.
    pub fn to_string(&self) -> (r: String)
        ensures
            r@ == state_error_text(*self),
    {
        match self {
            StateError::PatchFailed { op, path, reason } => {
                let mut s = String::from_str("patch failed: ");
                s.append(op.as_str());
                s.append(" at '");
                s.append(path.as_str());
                s.append("' - ");
                s.append(reason.as_str());
                s
            },
            StateError::InvalidPatch { reason } => {
                let mut s = String::from_str("invalid patch document: ");
                s.append(reason.as_str());
                s
            },
            StateError::MutexPoisoned => String::from_str(
                "state mutex poisoned - concurrent panic detected, state may be corrupted",
            ),
            StateError::MessageNotFound { id } => {
                let mut s = String::from_str("message '");
                s.append(id.as_str());
                s.append("' not found in conversation state");
                s
            },
            StateError::DuplicateMessage { id } => {
                let mut s = String::from_str("duplicate message id: '");
                s.append(id.as_str());
                s.append("' already exists");
                s
            },
            StateError::ToolCallNotFound { id, message_id } => {
                let mut s = String::from_str("tool call '");
                s.append(id.as_str());
                s.append("' not found in message '");
                s.append(message_id.as_str());
                s.append("'");
                s
            },
            StateError::Serialization { reason } => {
                let mut s = String::from_str("state serialization failed: ");
                s.append(reason.as_str());
                s
            },
        }
    }
}

/// A lock poisoned by a panic in another thread, from `std::sync`.
#[verifier::external_type_specification]
#[verifier::external_body]
#[verifier::reject_recursive_types(T)]
pub struct ExPoisonError<T>(std::sync::PoisonError<T>);

impl<T> From<std::sync::PoisonError<T>> for StateError {
    /// A poisoned lock is a poisoned state mutex.
    fn from(e: std::sync::PoisonError<T>) -> (r: Self) {
        StateError::MutexPoisoned
    }
}

impl<T> vstd::std_specs::convert::FromSpecImpl<std::sync::PoisonError<T>> for StateError {
    open spec fn obeys_from_spec() -> bool {
        true
    }

    open spec fn from_spec(v: std::sync::PoisonError<T>) -> StateError {
        StateError::MutexPoisoned
    }
}

/// HTTP and transport-level errors.
#[derive(Debug, PartialEq)]
pub enum TransportError {
    /// The request timed out.
    Timeout { duration_ms: u64 },
    /// The client disconnected before the response completed.
    ClientDisconnected { reason: String },
    /// An HTTP error response.
    HttpError { status: u16, message: String },
    /// The connection failed.
    ConnectionFailed { reason: String },
}

impl Clone for TransportError {
    fn clone(&self) -> (r: Self)
        ensures
            r == *self,
    {
        match self {
            TransportError::Timeout { duration_ms } => TransportError::Timeout { duration_ms: *duration_ms },
            TransportError::ClientDisconnected { reason } => TransportError::ClientDisconnected {
                reason: reason.clone(),
            },
            TransportError::HttpError { status, message } => TransportError::HttpError {
                status: *status,
                message: message.clone(),
            },
            TransportError::ConnectionFailed { reason } => TransportError::ConnectionFailed {
                reason: reason.clone(),
            },
        }
    }
}

/// The character of a decimal digit.
pub open spec fn digit_char(d: u64) -> char {
    (d + 48) as char
}

/// The decimal text of an unsigned integer: its digits, most significant
/// first, without leading zeros.
pub open spec fn decimal_text(n: u64) -> Seq<char>
    decreases n,
{
    if n < 10 {
        seq![digit_char(n)]
    } else {
        decimal_text(n / 10).push(digit_char(n % 10))
    }
}

/// The text of one decimal digit.
fn digit_str(d: u64) -> (r: &'static str)
    requires
        d < 10,
    ensures
        r@ == seq![digit_char(d)],
{
    proof {
        reveal_strlit("0");
        reveal_strlit("1");
        reveal_strlit("2");
        reveal_strlit("3");
        reveal_strlit("4");
        reveal_strlit("5");
        reveal_strlit("6");
        reveal_strlit("7");
        reveal_strlit("8");
        reveal_strlit("9");
    }
    match d {
        0 => "0",
        1 => "1",
        2 => "2",
        3 => "3",
        4 => "4",
        5 => "5",
        6 => "6",
        7 => "7",
        8 => "8",
        _ => "9",
    }
}

/// Appends the decimal text of `n`.
fn append_decimal(out: &mut String, n: u64)
    ensures
        final(out)@ == old(out)@ + decimal_text(n),
    decreases n,
{
    if n >= 10 {
        append_decimal(out, n / 10);
    }
    out.append(digit_str(n % 10));
}

/// The decimal text of an unsigned integer.
pub fn decimal(n: u64) -> (r: String)
    ensures
        r@ == decimal_text(n),
{
    let mut s = String::new();
    append_decimal(&mut s, n);
    s
}

/// The display text of a transport error.
pub open spec fn transport_error_text(e: TransportError) -> Seq<char> {
    match e {
        TransportError::Timeout { duration_ms } => "request timed out after "@ + decimal_text(duration_ms) + "ms"@,
        TransportError::ClientDisconnected { reason } => "client disconnected: "@ + reason@,
        TransportError::HttpError { status, message } => "HTTP "@ + decimal_text(status as u64) + ": "@ + message@,
        TransportError::ConnectionFailed { reason } => "connection failed: "@ + reason@,
    }
}

impl TransportError {
    /// The error's display text.
    pub fn to_string(&self) -> (r: String)
        ensures
            r@ == transport_error_text(*self),
    {
        match self {
            TransportError::Timeout { duration_ms } => {
                let mut s = String::from_str("request timed out after ");
                let n = decimal(*duration_ms);
                s.append(n.as_str());
                s.append("ms");
                s
            },
            TransportError::ClientDisconnected { reason } => {
                let mut s = String::from_str("client disconnected: ");
                s.append(reason.as_str());
                s
            },
            TransportError::HttpError { status, message } => {
                let mut s = String::from_str("HTTP ");
                let n = decimal(*status as u64);
                s.append(n.as_str());
                s.append(": ");
                s.append(message.as_str());
                s
            },
            TransportError::ConnectionFailed { reason } => {
                let mut s = String::from_str("connection failed: ");
                s.append(reason.as_str());
                s
            },
        }
    }
}

/// The display text of an encoding error.
pub open spec fn encode_error_text(e: EncodeError) -> Seq<char> {
    match e {
        EncodeError::Json { event_type, source } => "JSON serialization failed for "@ + event_type@ + ": "@
            + source@,
        EncodeError::UnsupportedContentType { content_type } => "unsupported content type: "@ + content_type@
            + " (supported: text/event-stream, application/x-ag-ui-proto)"@,
        EncodeError::EventTooLarge { size, max } => "event exceeds max size: "@ + decimal_text(size as u64)
            + " bytes > "@ + decimal_text(max as u64) + " bytes limit"@,
    }
}

impl EncodeError {
    /// The error's display text.
    pub fn to_string(&self) -> (r: String)
        ensures
            r@ == encode_error_text(*self),
    {
        match self {
            EncodeError::Json { event_type, source } => {
                let mut s = String::from_str("JSON serialization failed for ");
                s.append(event_type);
                s.append(": ");
                s.append(source.as_str());
                s
            },
            EncodeError::UnsupportedContentType { content_type } => {
                let mut s = String::from_str("unsupported content type: ");
                s.append(content_type.as_str());
                s.append(" (supported: text/event-stream, application/x-ag-ui-proto)");
                s
            },
            EncodeError::EventTooLarge { size, max } => {
                let mut s = String::from_str("event exceeds max size: ");
                let a = decimal(*size as u64);
                s.append(a.as_str());
                s.append(" bytes > ");
                let b = decimal(*max as u64);
                s.append(b.as_str());
                s.append(" bytes limit");
                s
            },
        }
    }
}

/// The display text of an agent error.
pub open spec fn agent_error_text(e: AgentError) -> Seq<char> {
    match e {
        AgentError::Aborted { reason } => "run aborted: "@ + reason@,
        AgentError::ProtocolViolation { event_type, violation } => "protocol violation in "@ + event_type@ + ": "@
            + violation@,
        AgentError::State(s) => "state error: "@ + state_error_text(s),
        AgentError::Encoding(x) => "encoding error: "@ + encode_error_text(x),
        AgentError::Transport(t) => "transport error: "@ + transport_error_text(t),
        AgentError::Custom { message, .. } => message@,
        AgentError::Internal { message, .. } => "internal error: "@ + message@,
    }
}

impl AgentError {
    /// The error's display text.
    pub fn to_string(&self) -> (r: String)
        ensures
            r@ == agent_error_text(*self),
    {
        match self {
            AgentError::Aborted { reason } => {
                let mut s = String::from_str("run aborted: ");
                s.append(reason.as_str());
                s
            },
            AgentError::ProtocolViolation { event_type, violation } => {
                let mut s = String::from_str("protocol violation in ");
                s.append(event_type);
                s.append(": ");
                s.append(violation.as_str());
                s
            },
            AgentError::State(e) => {
                let mut s = String::from_str("state error: ");
                let t = e.to_string();
                s.append(t.as_str());
                s
            },
            AgentError::Encoding(e) => {
                let mut s = String::from_str("encoding error: ");
                let t = e.to_string();
                s.append(t.as_str());
                s
            },
            AgentError::Transport(e) => {
                let mut s = String::from_str("transport error: ");
                let t = e.to_string();
                s.append(t.as_str());
                s
            },
            AgentError::Custom { message, .. } => message.clone(),
            AgentError::Internal { message, .. } => {
                let mut s = String::from_str("internal error: ");
                s.append(message.as_str());
                s
            },
        }
    }
}

} // verus!
