//! The events of the AG-UI protocol.

use crate::ids::{MessageId, RunId, ThreadId, ToolCallId};
use crate::json::{clone_json_vec, clone_opt_json, JsonValue};
use crate::message::{clone_messages, clone_opt_string, same_messages, Message, Role};
use crate::ids::Identifier;
use vstd::prelude::*;

verus! {

/// Event types of the AG-UI protocol.
#[derive(Debug, Clone, Copy, PartialEq, Eq, Structural)]
pub enum EventType {
    TextMessageStart,
    TextMessageContent,
    TextMessageEnd,
    TextMessageChunk,
    ThinkingTextMessageStart,
    ThinkingTextMessageContent,
    ThinkingTextMessageEnd,
    ToolCallStart,
    ToolCallArgs,
    ToolCallEnd,
    ToolCallChunk,
    ToolCallResult,
    ThinkingStart,
    ThinkingEnd,
    StateSnapshot,
    StateDelta,
    MessagesSnapshot,
    Raw,
    Custom,
    RunStarted,
    RunFinished,
    RunError,
    StepStarted,
    StepFinished,
}

/// An event timestamp: the bit pattern (`f64::to_bits`) of the time in
/// seconds, carried unchanged.
#[derive(Debug, Clone, Copy, PartialEq, Eq, Structural)]
pub struct Timestamp(pub u64);

/// Fields common to all events.
#[derive(Debug, PartialEq)]
pub struct BaseEvent {
    pub timestamp: Option<Timestamp>,
    pub raw_event: Option<JsonValue>,
}

impl Default for BaseEvent {
    fn default() -> (r: Self)
        ensures
            r.timestamp is None,
            r.raw_event is None,
    {
        BaseEvent { timestamp: None, raw_event: None }
    }
}

/// The start of a text message.
#[derive(Debug, PartialEq)]
pub struct TextMessageStartEvent {
    pub base: BaseEvent,
    pub message_id: MessageId,
    pub role: Role,
}

/// A piece of text message content.
#[derive(Debug, PartialEq)]
pub struct TextMessageContentEvent {
    pub base: BaseEvent,
    pub message_id: MessageId,
    pub delta: String,
}

/// The end of a text message.
#[derive(Debug, PartialEq)]
pub struct TextMessageEndEvent {
    pub base: BaseEvent,
    pub message_id: MessageId,
}

/// A chunk of a text message, with optional start and content information.
#[derive(Debug, PartialEq)]
pub struct TextMessageChunkEvent {
    pub base: BaseEvent,
    pub message_id: Option<MessageId>,
    pub role: Role,
    pub delta: Option<String>,
}

/// The start of a thinking text message.
#[derive(Debug, PartialEq)]
pub struct ThinkingTextMessageStartEvent {
    pub base: BaseEvent,
}

/// A piece of a thinking text message.
#[derive(Debug, PartialEq)]
pub struct ThinkingTextMessageContentEvent {
    pub base: BaseEvent,
    pub delta: String,
}

/// The end of a thinking text message.
#[derive(Debug, PartialEq)]
pub struct ThinkingTextMessageEndEvent {
    pub base: BaseEvent,
}

/// The start of a tool call.
#[derive(Debug, PartialEq)]
pub struct ToolCallStartEvent {
    pub base: BaseEvent,
    pub tool_call_id: ToolCallId,
    pub tool_call_name: String,
    pub parent_message_id: Option<MessageId>,
}

/// A chunk of tool call arguments.
#[derive(Debug, PartialEq)]
pub struct ToolCallArgsEvent {
    pub base: BaseEvent,
    pub tool_call_id: ToolCallId,
    pub delta: String,
}

/// The end of a tool call.
#[derive(Debug, PartialEq)]
pub struct ToolCallEndEvent {
    pub base: BaseEvent,
    pub tool_call_id: ToolCallId,
}

/// The result of a tool call.
#[derive(Debug, PartialEq)]
pub struct ToolCallResultEvent {
    pub base: BaseEvent,
    pub message_id: MessageId,
    pub tool_call_id: ToolCallId,
    pub content: String,
    pub role: Role,
}

/// A chunk of a tool call, with optional start and argument information.
#[derive(Debug, PartialEq)]
pub struct ToolCallChunkEvent {
    pub base: BaseEvent,
    pub tool_call_id: Option<ToolCallId>,
    pub tool_call_name: Option<String>,
    pub parent_message_id: Option<MessageId>,
    pub delta: Option<String>,
}

/// The start of a thinking step.
#[derive(Debug, PartialEq)]
pub struct ThinkingStartEvent {
    pub base: BaseEvent,
    pub title: Option<String>,
}

/// The end of a thinking step.
#[derive(Debug, PartialEq)]
pub struct ThinkingEndEvent {
    pub base: BaseEvent,
}

/// A snapshot of the agent state.
#[derive(Debug, PartialEq)]
pub struct StateSnapshotEvent<StateT = JsonValue> {
    pub base: BaseEvent,
    pub snapshot: StateT,
}

/// JSON Patch (RFC 6902) operations to apply to the agent state.
#[derive(Debug, PartialEq)]
pub struct StateDeltaEvent {
    pub base: BaseEvent,
    pub delta: Vec<JsonValue>,
}

/// A snapshot of the conversation messages.
#[derive(Debug, PartialEq)]
pub struct MessagesSnapshotEvent {
    pub base: BaseEvent,
    pub messages: Vec<Message>,
}

/// An event wrapped from an external source.
#[derive(Debug, PartialEq)]
pub struct RawEvent {
    pub base: BaseEvent,
    pub event: JsonValue,
    pub source: Option<String>,
}

/// An application-specific event.
#[derive(Debug, PartialEq)]
pub struct CustomEvent {
    pub base: BaseEvent,
    pub name: String,
    pub value: JsonValue,
}

/// The start of a run in a thread.
#[derive(Debug, PartialEq)]
pub struct RunStartedEvent {
    pub base: BaseEvent,
    pub thread_id: ThreadId,
    pub run_id: RunId,
}

/// The successful end of a run, possibly with a result.
#[derive(Debug, PartialEq)]
pub struct RunFinishedEvent {
    pub base: BaseEvent,
    pub thread_id: ThreadId,
    pub run_id: RunId,
    pub result: Option<JsonValue>,
}

/// A run that failed, with a message and an optional code.
#[derive(Debug, PartialEq)]
pub struct RunErrorEvent {
    pub base: BaseEvent,
    pub message: String,
    pub code: Option<String>,
}

/// The start of a named step.
#[derive(Debug, PartialEq)]
pub struct StepStartedEvent {
    pub base: BaseEvent,
    pub step_name: String,
}

/// The end of a named step.
#[derive(Debug, PartialEq)]
pub struct StepFinishedEvent {
    pub base: BaseEvent,
    pub step_name: String,
}

/// All events of the protocol.
#[derive(Debug, PartialEq)]
pub enum Event<StateT = JsonValue> {
    TextMessageStart(TextMessageStartEvent),
    TextMessageContent(TextMessageContentEvent),
    TextMessageEnd(TextMessageEndEvent),
    TextMessageChunk(TextMessageChunkEvent),
    ThinkingTextMessageStart(ThinkingTextMessageStartEvent),
    ThinkingTextMessageContent(ThinkingTextMessageContentEvent),
    ThinkingTextMessageEnd(ThinkingTextMessageEndEvent),
    ToolCallStart(ToolCallStartEvent),
    ToolCallArgs(ToolCallArgsEvent),
    ToolCallEnd(ToolCallEndEvent),
    ToolCallChunk(ToolCallChunkEvent),
    ToolCallResult(ToolCallResultEvent),
    ThinkingStart(ThinkingStartEvent),
    ThinkingEnd(ThinkingEndEvent),
    StateSnapshot(StateSnapshotEvent<StateT>),
    StateDelta(StateDeltaEvent),
    MessagesSnapshot(MessagesSnapshotEvent),
    Raw(RawEvent),
    Custom(CustomEvent),
    RunStarted(RunStartedEvent),
    RunFinished(RunFinishedEvent),
    RunError(RunErrorEvent),
    StepStarted(StepStartedEvent),
    StepFinished(StepFinishedEvent),
}

/// Clones an optional identifier.
fn clone_opt_id<K>(o: &Option<Identifier<K>>) -> (r: Option<Identifier<K>>)
    ensures
        r == *o,
{
    match o {
        Some(x) => Some(x.clone()),
        None => None,
    }
}

/// Clones an optional tool call id.
fn clone_opt_tool_call_id(o: &Option<ToolCallId>) -> (r: Option<ToolCallId>)
    ensures
        r == *o,
{
    match o {
        Some(x) => Some(x.clone()),
        None => None,
    }
}

impl Clone for BaseEvent {
    fn clone(&self) -> (r: Self)
        ensures
            r == *self,
    {
        BaseEvent { timestamp: self.timestamp, raw_event: clone_opt_json(&self.raw_event) }
    }
}

impl Clone for TextMessageStartEvent {
    fn clone(&self) -> (r: Self)
        ensures
            r == *self,
    {
        TextMessageStartEvent { base: self.base.clone(), message_id: self.message_id.clone(), role: self.role }
    }
}

impl Clone for TextMessageContentEvent {
    fn clone(&self) -> (r: Self)
        ensures
            r == *self,
    {
        TextMessageContentEvent {
            base: self.base.clone(),
            message_id: self.message_id.clone(),
            delta: self.delta.clone(),
        }
    }
}

impl Clone for TextMessageEndEvent {
    fn clone(&self) -> (r: Self)
        ensures
            r == *self,
    {
        TextMessageEndEvent { base: self.base.clone(), message_id: self.message_id.clone() }
    }
}

impl Clone for TextMessageChunkEvent {
    fn clone(&self) -> (r: Self)
        ensures
            r == *self,
    {
        TextMessageChunkEvent {
            base: self.base.clone(),
            message_id: clone_opt_id(&self.message_id),
            role: self.role,
            delta: clone_opt_string(&self.delta),
        }
    }
}

impl Clone for ThinkingTextMessageStartEvent {
    fn clone(&self) -> (r: Self)
        ensures
            r == *self,
    {
        ThinkingTextMessageStartEvent { base: self.base.clone() }
    }
}

impl Clone for ThinkingTextMessageContentEvent {
    fn clone(&self) -> (r: Self)
        ensures
            r == *self,
    {
        ThinkingTextMessageContentEvent { base: self.base.clone(), delta: self.delta.clone() }
    }
}

impl Clone for ThinkingTextMessageEndEvent {
    fn clone(&self) -> (r: Self)
        ensures
            r == *self,
    {
        ThinkingTextMessageEndEvent { base: self.base.clone() }
    }
}

impl Clone for ToolCallStartEvent {
    fn clone(&self) -> (r: Self)
        ensures
            r == *self,
    {
        ToolCallStartEvent {
            base: self.base.clone(),
            tool_call_id: self.tool_call_id.clone(),
            tool_call_name: self.tool_call_name.clone(),
            parent_message_id: clone_opt_id(&self.parent_message_id),
        }
    }
}

impl Clone for ToolCallArgsEvent {
    fn clone(&self) -> (r: Self)
        ensures
            r == *self,
    {
        ToolCallArgsEvent {
            base: self.base.clone(),
            tool_call_id: self.tool_call_id.clone(),
            delta: self.delta.clone(),
        }
    }
}

impl Clone for ToolCallEndEvent {
    fn clone(&self) -> (r: Self)
        ensures
            r == *self,
    {
        ToolCallEndEvent { base: self.base.clone(), tool_call_id: self.tool_call_id.clone() }
    }
}

impl Clone for ToolCallResultEvent {
    fn clone(&self) -> (r: Self)
        ensures
            r == *self,
    {
        ToolCallResultEvent {
            base: self.base.clone(),
            message_id: self.message_id.clone(),
            tool_call_id: self.tool_call_id.clone(),
            content: self.content.clone(),
            role: self.role,
        }
    }
}

impl Clone for ToolCallChunkEvent {
    fn clone(&self) -> (r: Self)
        ensures
            r == *self,
    {
        ToolCallChunkEvent {
            base: self.base.clone(),
            tool_call_id: clone_opt_tool_call_id(&self.tool_call_id),
            tool_call_name: clone_opt_string(&self.tool_call_name),
            parent_message_id: clone_opt_id(&self.parent_message_id),
            delta: clone_opt_string(&self.delta),
        }
    }
}

impl Clone for ThinkingStartEvent {
    fn clone(&self) -> (r: Self)
        ensures
            r == *self,
    {
        ThinkingStartEvent { base: self.base.clone(), title: clone_opt_string(&self.title) }
    }
}

impl Clone for ThinkingEndEvent {
    fn clone(&self) -> (r: Self)
        ensures
            r == *self,
    {
        ThinkingEndEvent { base: self.base.clone() }
    }
}

impl<StateT: Clone> Clone for StateSnapshotEvent<StateT> {
    fn clone(&self) -> (r: Self)
        ensures
            r.base == self.base,
            cloned(self.snapshot, r.snapshot),
    {
        StateSnapshotEvent { base: self.base.clone(), snapshot: self.snapshot.clone() }
    }
}

impl Clone for StateDeltaEvent {
    fn clone(&self) -> (r: Self)
        ensures
            r.base == self.base,
            r.delta@ == self.delta@,
    {
        StateDeltaEvent { base: self.base.clone(), delta: clone_json_vec(&self.delta) }
    }
}

impl Clone for MessagesSnapshotEvent {
    fn clone(&self) -> (r: Self)
        ensures
            r.base == self.base,
            same_messages(r.messages@, self.messages@),
    {
        MessagesSnapshotEvent { base: self.base.clone(), messages: clone_messages(&self.messages) }
    }
}

impl Clone for RawEvent {
    fn clone(&self) -> (r: Self)
        ensures
            r == *self,
    {
        RawEvent {
            base: self.base.clone(),
            event: self.event.clone(),
            source: clone_opt_string(&self.source),
        }
    }
}

impl Clone for CustomEvent {
    fn clone(&self) -> (r: Self)
        ensures
            r == *self,
    {
        CustomEvent { base: self.base.clone(), name: self.name.clone(), value: self.value.clone() }
    }
}

impl Clone for RunStartedEvent {
    fn clone(&self) -> (r: Self)
        ensures
            r == *self,
    {
        RunStartedEvent {
            base: self.base.clone(),
            thread_id: self.thread_id.clone(),
            run_id: self.run_id.clone(),
        }
    }
}

impl Clone for RunFinishedEvent {
    fn clone(&self) -> (r: Self)
        ensures
            r == *self,
    {
        RunFinishedEvent {
            base: self.base.clone(),
            thread_id: self.thread_id.clone(),
            run_id: self.run_id.clone(),
            result: clone_opt_json(&self.result),
        }
    }
}

impl Clone for RunErrorEvent {
    fn clone(&self) -> (r: Self)
        ensures
            r == *self,
    {
        RunErrorEvent {
            base: self.base.clone(),
            message: self.message.clone(),
            code: clone_opt_string(&self.code),
        }
    }
}

impl Clone for StepStartedEvent {
    fn clone(&self) -> (r: Self)
        ensures
            r == *self,
    {
        StepStartedEvent { base: self.base.clone(), step_name: self.step_name.clone() }
    }
}

impl Clone for StepFinishedEvent {
    fn clone(&self) -> (r: Self)
        ensures
            r == *self,
    {
        StepFinishedEvent { base: self.base.clone(), step_name: self.step_name.clone() }
    }
}

/// `b` is a clone of `a`: the same event, the snapshot of a state snapshot
/// cloned, the patch operations of a state delta and the messages of a
/// messages snapshot equal element by element.
pub open spec fn cloned_event<S: Clone>(a: Event<S>, b: Event<S>) -> bool {
    match (a, b) {
        (Event::StateSnapshot(x), Event::StateSnapshot(y)) => x.base == y.base && cloned(x.snapshot, y.snapshot),
        (Event::StateDelta(x), Event::StateDelta(y)) => x.base == y.base && x.delta@ == y.delta@,
        (Event::MessagesSnapshot(x), Event::MessagesSnapshot(y)) => x.base == y.base && same_messages(
            y.messages@,
            x.messages@,
        ),
        _ => a == b,
    }
}

impl<StateT: Clone> Clone for Event<StateT> {
    fn clone(&self) -> (r: Self)
        ensures
            cloned_event(*self, r),
    {
        match self {
            Event::TextMessageStart(x) => Event::TextMessageStart(x.clone()),
            Event::TextMessageContent(x) => Event::TextMessageContent(x.clone()),
            Event::TextMessageEnd(x) => Event::TextMessageEnd(x.clone()),
            Event::TextMessageChunk(x) => Event::TextMessageChunk(x.clone()),
            Event::ThinkingTextMessageStart(x) => Event::ThinkingTextMessageStart(x.clone()),
            Event::ThinkingTextMessageContent(x) => Event::ThinkingTextMessageContent(x.clone()),
            Event::ThinkingTextMessageEnd(x) => Event::ThinkingTextMessageEnd(x.clone()),
            Event::ToolCallStart(x) => Event::ToolCallStart(x.clone()),
            Event::ToolCallArgs(x) => Event::ToolCallArgs(x.clone()),
            Event::ToolCallEnd(x) => Event::ToolCallEnd(x.clone()),
            Event::ToolCallChunk(x) => Event::ToolCallChunk(x.clone()),
            Event::ToolCallResult(x) => Event::ToolCallResult(x.clone()),
            Event::ThinkingStart(x) => Event::ThinkingStart(x.clone()),
            Event::ThinkingEnd(x) => Event::ThinkingEnd(x.clone()),
            Event::StateSnapshot(x) => Event::StateSnapshot(x.clone()),
            Event::StateDelta(x) => Event::StateDelta(x.clone()),
            Event::MessagesSnapshot(x) => Event::MessagesSnapshot(x.clone()),
            Event::Raw(x) => Event::Raw(x.clone()),
            Event::Custom(x) => Event::Custom(x.clone()),
            Event::RunStarted(x) => Event::RunStarted(x.clone()),
            Event::RunFinished(x) => Event::RunFinished(x.clone()),
            Event::RunError(x) => Event::RunError(x.clone()),
            Event::StepStarted(x) => Event::StepStarted(x.clone()),
            Event::StepFinished(x) => Event::StepFinished(x.clone()),
        }
    }
}

/// The type of an event.
pub open spec fn spec_event_type<S>(e: Event<S>) -> EventType {
    match e {
        Event::TextMessageStart(_) => EventType::TextMessageStart,
        Event::TextMessageContent(_) => EventType::TextMessageContent,
        Event::TextMessageEnd(_) => EventType::TextMessageEnd,
        Event::TextMessageChunk(_) => EventType::TextMessageChunk,
        Event::ThinkingTextMessageStart(_) => EventType::ThinkingTextMessageStart,
        Event::ThinkingTextMessageContent(_) => EventType::ThinkingTextMessageContent,
        Event::ThinkingTextMessageEnd(_) => EventType::ThinkingTextMessageEnd,
        Event::ToolCallStart(_) => EventType::ToolCallStart,
        Event::ToolCallArgs(_) => EventType::ToolCallArgs,
        Event::ToolCallEnd(_) => EventType::ToolCallEnd,
        Event::ToolCallChunk(_) => EventType::ToolCallChunk,
        Event::ToolCallResult(_) => EventType::ToolCallResult,
        Event::ThinkingStart(_) => EventType::ThinkingStart,
        Event::ThinkingEnd(_) => EventType::ThinkingEnd,
        Event::StateSnapshot(_) => EventType::StateSnapshot,
        Event::StateDelta(_) => EventType::StateDelta,
        Event::MessagesSnapshot(_) => EventType::MessagesSnapshot,
        Event::Raw(_) => EventType::Raw,
        Event::Custom(_) => EventType::Custom,
        Event::RunStarted(_) => EventType::RunStarted,
        Event::RunFinished(_) => EventType::RunFinished,
        Event::RunError(_) => EventType::RunError,
        Event::StepStarted(_) => EventType::StepStarted,
        Event::StepFinished(_) => EventType::StepFinished,
    }
}

/// An event's type names its variant: the type is `X` exactly when the
/// event is an `X` event, so events of different variants have different
/// types.
pub proof fn lemma_event_type_names_variant<S>(e: Event<S>)
    ensures
        spec_event_type(e) == EventType::TextMessageStart <==> e is TextMessageStart,
        spec_event_type(e) == EventType::TextMessageContent <==> e is TextMessageContent,
        spec_event_type(e) == EventType::TextMessageEnd <==> e is TextMessageEnd,
        spec_event_type(e) == EventType::TextMessageChunk <==> e is TextMessageChunk,
        spec_event_type(e) == EventType::ThinkingTextMessageStart <==> e is ThinkingTextMessageStart,
        spec_event_type(e) == EventType::ThinkingTextMessageContent <==> e is ThinkingTextMessageContent,
        spec_event_type(e) == EventType::ThinkingTextMessageEnd <==> e is ThinkingTextMessageEnd,
        spec_event_type(e) == EventType::ToolCallStart <==> e is ToolCallStart,
        spec_event_type(e) == EventType::ToolCallArgs <==> e is ToolCallArgs,
        spec_event_type(e) == EventType::ToolCallEnd <==> e is ToolCallEnd,
        spec_event_type(e) == EventType::ToolCallChunk <==> e is ToolCallChunk,
        spec_event_type(e) == EventType::ToolCallResult <==> e is ToolCallResult,
        spec_event_type(e) == EventType::ThinkingStart <==> e is ThinkingStart,
        spec_event_type(e) == EventType::ThinkingEnd <==> e is ThinkingEnd,
        spec_event_type(e) == EventType::StateSnapshot <==> e is StateSnapshot,
        spec_event_type(e) == EventType::StateDelta <==> e is StateDelta,
        spec_event_type(e) == EventType::MessagesSnapshot <==> e is MessagesSnapshot,
        spec_event_type(e) == EventType::Raw <==> e is Raw,
        spec_event_type(e) == EventType::Custom <==> e is Custom,
        spec_event_type(e) == EventType::RunStarted <==> e is RunStarted,
        spec_event_type(e) == EventType::RunFinished <==> e is RunFinished,
        spec_event_type(e) == EventType::RunError <==> e is RunError,
        spec_event_type(e) == EventType::StepStarted <==> e is StepStarted,
        spec_event_type(e) == EventType::StepFinished <==> e is StepFinished,
{
}

/// The common fields of an event.
pub open spec fn spec_base<S>(e: Event<S>) -> BaseEvent {
    match e {
        Event::TextMessageStart(x) => x.base,
        Event::TextMessageContent(x) => x.base,
        Event::TextMessageEnd(x) => x.base,
        Event::TextMessageChunk(x) => x.base,
        Event::ThinkingTextMessageStart(x) => x.base,
        Event::ThinkingTextMessageContent(x) => x.base,
        Event::ThinkingTextMessageEnd(x) => x.base,
        Event::ToolCallStart(x) => x.base,
        Event::ToolCallArgs(x) => x.base,
        Event::ToolCallEnd(x) => x.base,
        Event::ToolCallChunk(x) => x.base,
        Event::ToolCallResult(x) => x.base,
        Event::ThinkingStart(x) => x.base,
        Event::ThinkingEnd(x) => x.base,
        Event::StateSnapshot(x) => x.base,
        Event::StateDelta(x) => x.base,
        Event::MessagesSnapshot(x) => x.base,
        Event::Raw(x) => x.base,
        Event::Custom(x) => x.base,
        Event::RunStarted(x) => x.base,
        Event::RunFinished(x) => x.base,
        Event::RunError(x) => x.base,
        Event::StepStarted(x) => x.base,
        Event::StepFinished(x) => x.base,
    }
}

impl<StateT> Event<StateT> {
    /// The event's type.
    pub fn event_type(&self) -> (r: EventType)
        ensures
            r == spec_event_type(*self),
    {
        match self {
            Event::TextMessageStart(_) => EventType::TextMessageStart,
            Event::TextMessageContent(_) => EventType::TextMessageContent,
            Event::TextMessageEnd(_) => EventType::TextMessageEnd,
            Event::TextMessageChunk(_) => EventType::TextMessageChunk,
            Event::ThinkingTextMessageStart(_) => EventType::ThinkingTextMessageStart,
            Event::ThinkingTextMessageContent(_) => EventType::ThinkingTextMessageContent,
            Event::ThinkingTextMessageEnd(_) => EventType::ThinkingTextMessageEnd,
            Event::ToolCallStart(_) => EventType::ToolCallStart,
            Event::ToolCallArgs(_) => EventType::ToolCallArgs,
            Event::ToolCallEnd(_) => EventType::ToolCallEnd,
            Event::ToolCallChunk(_) => EventType::ToolCallChunk,
            Event::ToolCallResult(_) => EventType::ToolCallResult,
            Event::ThinkingStart(_) => EventType::ThinkingStart,
            Event::ThinkingEnd(_) => EventType::ThinkingEnd,
            Event::StateSnapshot(_) => EventType::StateSnapshot,
            Event::StateDelta(_) => EventType::StateDelta,
            Event::MessagesSnapshot(_) => EventType::MessagesSnapshot,
            Event::Raw(_) => EventType::Raw,
            Event::Custom(_) => EventType::Custom,
            Event::RunStarted(_) => EventType::RunStarted,
            Event::RunFinished(_) => EventType::RunFinished,
            Event::RunError(_) => EventType::RunError,
            Event::StepStarted(_) => EventType::StepStarted,
            Event::StepFinished(_) => EventType::StepFinished,
        }
    }

    /// The event's timestamp, if it has one.
    pub fn timestamp(&self) -> (r: Option<Timestamp>)
        ensures
            r == spec_base(*self).timestamp,
    {
        match self {
            Event::TextMessageStart(e) => e.base.timestamp,
            Event::TextMessageContent(e) => e.base.timestamp,
            Event::TextMessageEnd(e) => e.base.timestamp,
            Event::TextMessageChunk(e) => e.base.timestamp,
            Event::ThinkingTextMessageStart(e) => e.base.timestamp,
            Event::ThinkingTextMessageContent(e) => e.base.timestamp,
            Event::ThinkingTextMessageEnd(e) => e.base.timestamp,
            Event::ToolCallStart(e) => e.base.timestamp,
            Event::ToolCallArgs(e) => e.base.timestamp,
            Event::ToolCallEnd(e) => e.base.timestamp,
            Event::ToolCallChunk(e) => e.base.timestamp,
            Event::ToolCallResult(e) => e.base.timestamp,
            Event::ThinkingStart(e) => e.base.timestamp,
            Event::ThinkingEnd(e) => e.base.timestamp,
            Event::StateSnapshot(e) => e.base.timestamp,
            Event::StateDelta(e) => e.base.timestamp,
            Event::MessagesSnapshot(e) => e.base.timestamp,
            Event::Raw(e) => e.base.timestamp,
            Event::Custom(e) => e.base.timestamp,
            Event::RunStarted(e) => e.base.timestamp,
            Event::RunFinished(e) => e.base.timestamp,
            Event::RunError(e) => e.base.timestamp,
            Event::StepStarted(e) => e.base.timestamp,
            Event::StepFinished(e) => e.base.timestamp,
        }
    }
}

/// Validation errors for events.
#[derive(Debug, PartialEq)]
pub enum EventValidationError {
    /// A content delta was empty.
    EmptyDelta,
    /// The event was malformed.
    InvalidFormat(String),
}

/// The message of a validation error.
pub open spec fn validation_error_text(e: EventValidationError) -> Seq<char> {
    match e {
        EventValidationError::EmptyDelta => "Delta must not be an empty string"@,
        EventValidationError::InvalidFormat(s) => "Invalid event format: "@ + s@,
    }
}

impl EventValidationError {
    /// The error's message.
    pub fn to_string(&self) -> (r: String)
        ensures
            r@ == validation_error_text(*self),
    {
        match self {
            EventValidationError::EmptyDelta => String::from_str("Delta must not be an empty string"),
            EventValidationError::InvalidFormat(s) => {
                let mut out = String::from_str("Invalid event format: ");
                out.append(s.as_str());
                out
            },
        }
    }
}

impl TextMessageContentEvent {
    /// A content event is valid when its delta is not empty.
    pub fn validate(&self) -> (r: Result<(), EventValidationError>)
        ensures
            r is Ok <==> self.delta@.len() > 0,
            r is Err ==> r == Err::<(), EventValidationError>(EventValidationError::EmptyDelta),
    {
        if self.delta.as_str().is_empty() {
            return Err(EventValidationError::EmptyDelta);
        }
        Ok(())
    }

    /// A content event for the given message, rejected when `delta` is empty.
    pub fn new(message_id: MessageId, delta: String) -> (r: Result<Self, EventValidationError>)
        ensures
            match r {
                Ok(e) => delta@.len() > 0 && e.base.timestamp is None && e.base.raw_event is None
                    && e.message_id == message_id && e.delta == delta,
                Err(err) => delta@.len() == 0 && err == EventValidationError::EmptyDelta,
            },
    {
        let event = TextMessageContentEvent {
            base: BaseEvent { timestamp: None, raw_event: None },
            message_id,
            delta,
        };
        match event.validate() {
            Ok(()) => Ok(event),
            Err(e) => Err(e),
        }
    }

    /// Sets the timestamp.
    pub fn with_timestamp(self, timestamp: Timestamp) -> (r: Self)
        ensures
            r == (TextMessageContentEvent { base: BaseEvent { timestamp: Some(timestamp), ..self.base }, ..self }),
    {
        TextMessageContentEvent { base: BaseEvent { timestamp: Some(timestamp), ..self.base }, ..self }
    }
}

impl TextMessageStartEvent {
    /// The start of an assistant text message with the given id.
    pub fn new(message_id: MessageId) -> (r: Self)
        ensures
            r.base.timestamp is None,
            r.base.raw_event is None,
            r.message_id == message_id,
            r.role == Role::Assistant,
    {
        TextMessageStartEvent {
            base: BaseEvent { timestamp: None, raw_event: None },
            message_id,
            role: Role::Assistant,
        }
    }

    /// Sets the timestamp.
    pub fn with_timestamp(self, timestamp: Timestamp) -> (r: Self)
        ensures
            r == (TextMessageStartEvent { base: BaseEvent { timestamp: Some(timestamp), ..self.base }, ..self }),
    {
        TextMessageStartEvent { base: BaseEvent { timestamp: Some(timestamp), ..self.base }, ..self }
    }

    /// Sets the raw event.
    pub fn with_raw_event(self, raw_event: JsonValue) -> (r: Self)
        ensures
            r == (TextMessageStartEvent { base: BaseEvent { raw_event: Some(raw_event), ..self.base }, ..self }),
    {
        TextMessageStartEvent { base: BaseEvent { raw_event: Some(raw_event), ..self.base }, ..self }
    }
}

} // verus!
