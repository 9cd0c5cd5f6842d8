//! The decisions of the HTTP endpoints that serve an agent: the routes, the
//! health answer, and how an error during a run reaches the client as a
//! `RUN_ERROR` event.

use crate::agent::HealthStatus;
use crate::message::clone_opt_string;
use crate::error::{agent_error_text, encode_error_text, AgentError, AgentResult, EncodeError, EncodeResult};
use crate::event::{BaseEvent, Event, RunErrorEvent};
use vstd::prelude::*;

verus! {

/// The error code a `RUN_ERROR` event carries for an agent error.
pub open spec fn error_code_text(e: AgentError) -> Seq<char> {
    match e {
        AgentError::Aborted { .. } => "ABORTED"@,
        AgentError::ProtocolViolation { .. } => "PROTOCOL_VIOLATION"@,
        AgentError::State(_) => "STATE_ERROR"@,
        AgentError::Encoding(_) => "ENCODING_ERROR"@,
        AgentError::Transport(_) => "TRANSPORT_ERROR"@,
        AgentError::Custom { .. } => "CUSTOM_ERROR"@,
        AgentError::Internal { .. } => "INTERNAL_ERROR"@,
    }
}

/// Whether two agent errors are of the same kind (the same variant).
pub open spec fn same_error_kind(a: AgentError, b: AgentError) -> bool {
    ||| a is Aborted && b is Aborted
    ||| a is ProtocolViolation && b is ProtocolViolation
    ||| a is State && b is State
    ||| a is Encoding && b is Encoding
    ||| a is Transport && b is Transport
    ||| a is Custom && b is Custom
    ||| a is Internal && b is Internal
}

/// Each kind of agent error has its own code: an error's code is
/// `ABORTED`, `PROTOCOL_VIOLATION`, `STATE_ERROR`, `ENCODING_ERROR`,
/// `TRANSPORT_ERROR`, `CUSTOM_ERROR` or `INTERNAL_ERROR` exactly when it is
/// of the kind so named.
pub proof fn lemma_error_code_names_its_kind(e: AgentError)
    ensures
        error_code_text(e) == "ABORTED"@ <==> e is Aborted,
        error_code_text(e) == "PROTOCOL_VIOLATION"@ <==> e is ProtocolViolation,
        error_code_text(e) == "STATE_ERROR"@ <==> e is State,
        error_code_text(e) == "ENCODING_ERROR"@ <==> e is Encoding,
        error_code_text(e) == "TRANSPORT_ERROR"@ <==> e is Transport,
        error_code_text(e) == "CUSTOM_ERROR"@ <==> e is Custom,
        error_code_text(e) == "INTERNAL_ERROR"@ <==> e is Internal,
{
    reveal_strlit("ABORTED");
    reveal_strlit("PROTOCOL_VIOLATION");
    reveal_strlit("STATE_ERROR");
    reveal_strlit("ENCODING_ERROR");
    reveal_strlit("TRANSPORT_ERROR");
    reveal_strlit("CUSTOM_ERROR");
    reveal_strlit("INTERNAL_ERROR");
    assert("ABORTED"@.len() == 7);
    assert("PROTOCOL_VIOLATION"@.len() == 18);
    assert("STATE_ERROR"@.len() == 11);
    assert("ENCODING_ERROR"@.len() == 14);
    assert("TRANSPORT_ERROR"@.len() == 15);
    assert("CUSTOM_ERROR"@.len() == 12);
    assert("INTERNAL_ERROR"@.len() == 14);
    assert("ENCODING_ERROR"@[0] != "INTERNAL_ERROR"@[0]);
}

/// Errors of different kinds get different codes, and errors of one kind
/// the same code.
pub proof fn lemma_error_codes_distinct(e: AgentError, other: AgentError)
    ensures
        error_code_text(e) == error_code_text(other) <==> same_error_kind(e, other),
{
    lemma_error_code_names_its_kind(e);
    lemma_error_code_names_its_kind(other);
}

/// The error code for an agent error.
pub fn error_code(error: &AgentError) -> (r: String)
    ensures
        r@ == error_code_text(*error),
{
    match error {
        AgentError::Aborted { .. } => String::from_str("ABORTED"),
        AgentError::ProtocolViolation { .. } => String::from_str("PROTOCOL_VIOLATION"),
        AgentError::State(_) => String::from_str("STATE_ERROR"),
        AgentError::Encoding(_) => String::from_str("ENCODING_ERROR"),
        AgentError::Transport(_) => String::from_str("TRANSPORT_ERROR"),
        AgentError::Custom { .. } => String::from_str("CUSTOM_ERROR"),
        AgentError::Internal { .. } => String::from_str("INTERNAL_ERROR"),
    }
}

/// The `RUN_ERROR` event sent for an error the agent's stream yielded: the
/// error's text as message and its code.
pub fn agent_error_event<S>(error: &AgentError, base: BaseEvent) -> (r: Event<S>)
    ensures
        r matches Event::RunError(e) && e.base == base && e.message@ == agent_error_text(*error) && (e.code
            matches Some(c) && c@ == error_code_text(*error)),
{
    Event::RunError(RunErrorEvent { base, message: error.to_string(), code: Some(error_code(error)) })
}

/// The `RUN_ERROR` event sent for an event that could not be encoded.
pub fn encode_error_event<S>(error: &EncodeError, base: BaseEvent) -> (r: Event<S>)
    ensures
        r matches Event::RunError(e) && e.base == base && e.message@ == "encoding error: "@ + encode_error_text(
            *error,
        ) && (e.code matches Some(c) && c@ == "ENCODE_ERROR"@),
{
    let mut message = String::from_str("encoding error: ");
    let text = error.to_string();
    message.append(text.as_str());
    Event::RunError(RunErrorEvent { base, message, code: Some(String::from_str("ENCODE_ERROR")) })
}

/// UTF-8 text with each double quote escaped by a backslash.
pub open spec fn escape_quotes(s: Seq<u8>) -> Seq<u8>
    decreases s.len(),
{
    if s.len() == 0 {
        Seq::empty()
    } else if s.last() == 34u8 {
        escape_quotes(s.drop_last()) + seq![92u8, 34u8]
    } else {
        escape_quotes(s.drop_last()).push(s.last())
    }
}

/// The last-resort frame for an agent error whose `RUN_ERROR` event could
/// not be encoded: `data: {"type":"RUN_ERROR","message":"..."}` and an empty
/// line, with the message's double quotes escaped.
pub open spec fn fallback_frame(message: Seq<char>) -> Seq<u8> {
    vstd::utf8::encode_utf8("data: {\"type\":\"RUN_ERROR\",\"message\":\""@) + escape_quotes(
        vstd::utf8::encode_utf8(message),
    ) + vstd::utf8::encode_utf8("\"}\n\n"@)
}

/// Appends bytes.
fn append_bytes(out: &mut Vec<u8>, bytes: &[u8])
    ensures
        final(out)@ == old(out)@ + bytes@,
{
    let mut i: usize = 0;
    while i < bytes.len()
        invariant
            i <= bytes@.len(),
            out@ == old(out)@ + bytes@.take(i as int),
        decreases bytes.len() - i,
    {
        out.push(bytes[i]);
        assert(bytes@.take(i + 1) =~= bytes@.take(i as int).push(bytes@[i as int]));
        assert(out@ =~= old(out)@ + bytes@.take(i + 1));
        i = i + 1;
    }
    assert(bytes@.take(bytes@.len() as int) =~= bytes@);
}

/// Builds the last-resort frame for an agent error.
pub fn fallback_error_frame(message: &str) -> (r: Vec<u8>)
    ensures
        r@ == fallback_frame(message@),
{
    let mut out: Vec<u8> = Vec::new();
    append_bytes(&mut out, "data: {\"type\":\"RUN_ERROR\",\"message\":\"".as_bytes());
    let ghost head = out@;
    let bytes = message.as_bytes();
    let mut i: usize = 0;
    while i < bytes.len()
        invariant
            i <= bytes@.len(),
            out@ == head + escape_quotes(bytes@.take(i as int)),
        decreases bytes.len() - i,
    {
        let b = bytes[i];
        assert(bytes@.take(i + 1).drop_last() =~= bytes@.take(i as int));
        if b == 34u8 {
            out.push(92u8);
            out.push(34u8);
        } else {
            out.push(b);
        }
        assert(out@ =~= head + escape_quotes(bytes@.take(i + 1)));
        i = i + 1;
    }
    assert(bytes@.take(bytes@.len() as int) =~= bytes@);
    append_bytes(&mut out, "\"}\n\n".as_bytes());
    assert(out@ =~= fallback_frame(message@));
    out
}

/// The last-resort frame when the `RUN_ERROR` event for an encoding failure
/// could not be encoded either.
pub open spec fn encoding_failed_frame() -> Seq<u8> {
    vstd::utf8::encode_utf8("data: {\"type\":\"RUN_ERROR\",\"message\":\"encoding failed\"}\n\n"@)
}

/// The frame sent for an event that did not encode, given how its
/// `RUN_ERROR` event encoded: that frame, or the last-resort frame.
pub fn encode_failure_frame(error_frame: EncodeResult<Vec<u8>>) -> (r: Vec<u8>)
    ensures
        match error_frame {
            Ok(b) => r@ == b@,
            Err(_) => r@ == encoding_failed_frame(),
        },
{
    match error_frame {
        Ok(b) => b,
        Err(_) => {
            let mut out: Vec<u8> = Vec::new();
            append_bytes(&mut out, "data: {\"type\":\"RUN_ERROR\",\"message\":\"encoding failed\"}\n\n".as_bytes());
            out
        },
    }
}

/// The frame sent for an agent error, given how its `RUN_ERROR` event
/// encoded: that frame, or the last-resort frame for the error's message.
pub fn agent_failure_frame(error_frame: EncodeResult<Vec<u8>>, message: &str) -> (r: Vec<u8>)
    ensures
        match error_frame {
            Ok(b) => r@ == b@,
            Err(_) => r@ == fallback_frame(message@),
        },
{
    match error_frame {
        Ok(b) => b,
        Err(_) => fallback_error_frame(message),
    }
}

/// The body of a health answer.
#[derive(Debug, PartialEq)]
pub struct HealthResponse {
    /// `healthy`, `degraded`, `unhealthy`, or `error` when the check failed.
    pub status: String,
    /// The agent's name.
    pub agent: String,
    /// The reason of a degraded or unhealthy status, or the check's error.
    pub details: Option<String>,
}

impl Clone for HealthResponse {
    fn clone(&self) -> (r: Self)
        ensures
            r == *self,
    {
        HealthResponse {
            status: self.status.clone(),
            agent: self.agent.clone(),
            details: clone_opt_string(&self.details),
        }
    }
}

/// The HTTP status code of a health answer.
pub open spec fn health_status_code(result: AgentResult<HealthStatus>) -> u16 {
    match result {
        Ok(HealthStatus::Unhealthy { .. }) => 503,
        Ok(_) => 200,
        Err(_) => 500,
    }
}

/// Whether `r` is the body of the health answer for `result`.
pub open spec fn is_health_body(r: HealthResponse, result: AgentResult<HealthStatus>, agent: Seq<char>) -> bool {
    &&& r.agent@ == agent
    &&& match result {
        Ok(HealthStatus::Healthy) => r.status@ == "healthy"@ && r.details is None,
        Ok(HealthStatus::Degraded { reason }) => r.status@ == "degraded"@ && r.details == Some(reason),
        Ok(HealthStatus::Unhealthy { reason }) => r.status@ == "unhealthy"@ && r.details == Some(reason),
        Err(e) => r.status@ == "error"@ && (r.details matches Some(d) && d@ == agent_error_text(e)),
    }
}

/// The answer to a health probe: `200` while the agent can take requests,
/// `503` when it is unhealthy, `500` when the check itself failed.
pub fn health_response(result: &AgentResult<HealthStatus>, agent: &str) -> (r: (u16, HealthResponse))
    ensures
        r.0 == health_status_code(*result),
        is_health_body(r.1, *result, agent@),
{
    match result {
        Ok(status) => {
            let (status_str, details) = match status {
                HealthStatus::Healthy => (String::from_str("healthy"), None),
                HealthStatus::Degraded { reason } => (String::from_str("degraded"), Some(reason.clone())),
                HealthStatus::Unhealthy { reason } => (String::from_str("unhealthy"), Some(reason.clone())),
            };
            let code: u16 = if status.is_healthy() {
                200
            } else {
                503
            };
            (code, HealthResponse { status: status_str, agent: agent.to_owned(), details })
        },
        Err(e) => (
            500,
            HealthResponse {
                status: String::from_str("error"),
                agent: agent.to_owned(),
                details: Some(e.to_string()),
            },
        ),
    }
}

/// The status code of a health answer agrees with its body: 503 exactly
/// when the body says `unhealthy`, 500 exactly when it says `error`, and 200
/// exactly when it says `healthy` or `degraded`.
pub proof fn lemma_health_code_agrees_with_body(r: HealthResponse, result: AgentResult<HealthStatus>, agent: Seq<char>)
    requires
        is_health_body(r, result, agent),
    ensures
        health_status_code(result) == 503 <==> r.status@ == "unhealthy"@,
        health_status_code(result) == 500 <==> r.status@ == "error"@,
        health_status_code(result) == 200 <==> (r.status@ == "healthy"@ || r.status@ == "degraded"@),
{
    reveal_strlit("healthy");
    reveal_strlit("degraded");
    reveal_strlit("unhealthy");
    reveal_strlit("error");
    assert("healthy"@.len() == 7);
    assert("degraded"@.len() == 8);
    assert("unhealthy"@.len() == 9);
    assert("error"@.len() == 5);
}

/// The paths of the run and health endpoints under a prefix: `/` and
/// `/health` without one, else the prefix and the prefix with `/health`.
pub fn route_paths(prefix: &str) -> (r: (String, String))
    ensures
        prefix@.len() == 0 ==> r.0@ == "/"@ && r.1@ == "/health"@,
        prefix@.len() > 0 ==> r.0@ == prefix@ && r.1@ == prefix@ + "/health"@,
{
    if prefix.is_empty() {
        (String::from_str("/"), String::from_str("/health"))
    } else {
        let mut health = prefix.to_owned();
        health.append("/health");
        (prefix.to_owned(), health)
    }
}

} // verus!
