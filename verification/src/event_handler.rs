//! What a client does with each event of a run besides telling its
//! subscribers: the messages and state it keeps, the changes it reports, and
//! how the changes subscribers ask for are combined.

use crate::event::{Event, ToolCallStartEvent};
use crate::finalize::has_uuid;
use crate::ids::MessageId;
use crate::json::{
    apply_patch_text, array_text, json_array, json_texts, patch_operation_read, patch_outcome,
    read_patch_operation, JsonValue,
};
use crate::message::{clone_messages, same_messages, FunctionCall, Message, Role, ToolCall};
use crate::verify::AgUiClientError;
use vstd::prelude::*;

verus! {

/// A change to the run's messages and state: one that handling an event
/// made, or one a subscriber asks for.
#[derive(Debug)]
pub struct AgentStateMutation {
    /// The new messages, if they change.
    pub messages: Option<Vec<Message>>,
    /// The new state, if it changes.
    pub state: Option<JsonValue>,
    /// Whether later changes are to be ignored.
    pub stop_propagation: bool,
}

impl Default for AgentStateMutation {
    fn default() -> (r: Self)
        ensures
            r.messages is None,
            r.state is None,
            !r.stop_propagation,
    {
        AgentStateMutation { messages: None, state: None, stop_propagation: false }
    }
}

/// The text content of a message, empty when it has none.
pub open spec fn content_or_empty(m: Message) -> Seq<char> {
    match m.spec_content() {
        Some(t) => t,
        None => Seq::empty(),
    }
}

/// The tool calls of a message, none when it has none.
pub open spec fn calls_or_empty(m: Message) -> Seq<ToolCall> {
    match m.spec_tool_calls() {
        Some(t) => t,
        None => Seq::empty(),
    }
}

/// `new` is `old` with `delta` appended to its text content; an activity
/// message has none and stays as it is.
pub open spec fn content_appended(old: Message, new: Message, delta: Seq<char>) -> bool {
    if old.spec_role() == Role::Activity {
        new == old
    } else {
        exists|c: String| c@ == content_or_empty(old) + delta && new == old.with_content_spec(c)
    }
}

/// `new` is the assistant message `old` with the tool calls `calls`.
pub open spec fn calls_replaced(old: Message, new: Message, calls: Seq<ToolCall>) -> bool {
    exists|v: Vec<ToolCall>| v@ == calls && new == old.with_tool_calls_spec(v)
}

/// `tc` is the tool call a `TOOL_CALL_START` adds: its id and tool name,
/// type `function`, no arguments yet.
pub open spec fn started_call(tc: ToolCall, e: ToolCallStartEvent) -> bool {
    &&& tc.id == e.tool_call_id
    &&& tc.call_type@ == "function"@
    &&& tc.function.name == e.tool_call_name
    &&& tc.function.arguments@.len() == 0
    &&& tc.encrypted_value is None
}

/// `new` is the tool call `old` with `delta` appended to its arguments.
pub open spec fn args_appended(old: ToolCall, new: ToolCall, delta: Seq<char>) -> bool {
    &&& new.id == old.id
    &&& new.call_type == old.call_type
    &&& new.function.name == old.function.name
    &&& new.function.arguments@ == old.function.arguments@ + delta
    &&& new.encrypted_value == old.encrypted_value
}

/// Whether the message is a new assistant message for a text message start
/// or a tool call start: the given id, and nothing else.
pub open spec fn bare_assistant(m: Message, id: MessageId, content: Option<Seq<char>>) -> bool {
    m matches Message::Assistant { id: i, content: c, name, tool_calls, encrypted_value } && i == id && match c {
        Some(s) => content == Some(s@),
        None => content is None,
    } && name is None && tool_calls is None && encrypted_value is None
}

/// The change a handled event reports: the messages, when they changed.
pub open spec fn reports_messages(m: AgentStateMutation, messages: Seq<Message>) -> bool {
    m.messages matches Some(v) && same_messages(v@, messages) && m.state is None && !m.stop_propagation
}

/// The change a handled event reports: the state, when it changed.
pub open spec fn reports_state(m: AgentStateMutation, state: JsonValue) -> bool {
    m.messages is None && m.state == Some(state) && !m.stop_propagation
}

/// No change reported.
pub open spec fn reports_nothing(m: AgentStateMutation) -> bool {
    m.messages is None && m.state is None && !m.stop_propagation
}

/// How the messages change for a `TOOL_CALL_START`: an assistant message
/// last in the list whose id is the call's parent gets the call; a list
/// without messages gets an assistant message under the parent's id (any
/// id without a parent) and without the call; else nothing changes.
pub open spec fn tool_call_started(old: Seq<Message>, new: Seq<Message>, e: ToolCallStartEvent) -> bool {
    if old.len() == 0 {
        new.len() == 1 && (exists|id: MessageId| #[trigger] bare_assistant(new[0], id, None) && (e.parent_message_id
            matches Some(p) ==> id == p))
    } else if e.parent_message_id matches Some(p) && old.last().spec_id().uuid_value() == p.uuid_value()
        && old.last().spec_role() == Role::Assistant {
        &&& new.len() == old.len()
        &&& new.drop_last() == old.drop_last()
        &&& exists|tc: ToolCall|
            started_call(tc, e) && #[trigger] calls_replaced(old.last(), new.last(), calls_or_empty(old.last()).push(tc))
    } else {
        new == old
    }
}

/// How the messages change for `TOOL_CALL_ARGS`: the last tool call of the
/// last message gets the arguments; an assistant message last in the list
/// without tool calls gets an empty list.
pub open spec fn tool_call_args_added(old: Seq<Message>, new: Seq<Message>, delta: Seq<char>) -> bool {
    if old.len() > 0 && old.last().spec_role() == Role::Assistant {
        let calls = calls_or_empty(old.last());
        &&& new.len() == old.len()
        &&& new.drop_last() == old.drop_last()
        &&& if calls.len() > 0 {
            exists|tc: ToolCall|
                #[trigger] args_appended(calls.last(), tc, delta) && calls_replaced(
                    old.last(),
                    new.last(),
                    calls.drop_last().push(tc),
                )
        } else {
            calls_replaced(old.last(), new.last(), Seq::empty())
        }
    } else {
        new == old
    }
}

/// Whether `TOOL_CALL_ARGS` reaches a tool call of the last message.
pub open spec fn args_reach_call(old: Seq<Message>) -> bool {
    old.len() > 0 && old.last().spec_role() == Role::Assistant && calls_or_empty(old.last()).len() > 0
}

/// A `TEXT_MESSAGE_CONTENT` delta extends the text of the message it
/// reaches by exactly the delta, and changes nothing else that identifies
/// the message: its id, role and tool calls stay.
pub proof fn lemma_content_delta_extends_text(old: Message, new: Message, delta: Seq<char>)
    requires
        content_appended(old, new, delta),
        old.spec_role() != Role::Activity,
    ensures
        new.spec_content() == Some(content_or_empty(old) + delta),
        new.spec_id() == old.spec_id(),
        new.spec_role() == old.spec_role(),
        new.spec_tool_calls() == old.spec_tool_calls(),
{
}

/// `TOOL_CALL_ARGS` that reach a tool call extend the arguments of the last
/// call of the last message by exactly the delta: the list keeps its length
/// and other messages, the message keeps its other calls, and the call its
/// id and tool name.
pub proof fn lemma_args_extend_last_call(old: Seq<Message>, new: Seq<Message>, delta: Seq<char>)
    requires
        tool_call_args_added(old, new, delta),
        args_reach_call(old),
    ensures
        new.len() == old.len(),
        new.drop_last() == old.drop_last(),
        new.last().spec_id() == old.last().spec_id(),
        calls_or_empty(new.last()).len() == calls_or_empty(old.last()).len(),
        calls_or_empty(new.last()).drop_last() == calls_or_empty(old.last()).drop_last(),
        calls_or_empty(new.last()).last().id == calls_or_empty(old.last()).last().id,
        calls_or_empty(new.last()).last().function.name == calls_or_empty(old.last()).last().function.name,
        calls_or_empty(new.last()).last().function.arguments@ == calls_or_empty(old.last()).last().function.arguments@
            + delta,
{
    let calls = calls_or_empty(old.last());
    let tc = choose|tc: ToolCall|
        #[trigger] args_appended(calls.last(), tc, delta) && calls_replaced(old.last(), new.last(), calls.drop_last().push(tc));
    assert(calls.drop_last().push(tc).drop_last() =~= calls.drop_last());
}

/// A `TOOL_CALL_START` whose parent is the last message, an assistant
/// message, adds one call to it: the event's id and tool name, no
/// arguments, after the calls it had.
pub proof fn lemma_start_adds_call_to_parent(old: Seq<Message>, new: Seq<Message>, e: ToolCallStartEvent)
    requires
        tool_call_started(old, new, e),
        old.len() > 0,
        e.parent_message_id matches Some(p) && old.last().spec_id().uuid_value() == p.uuid_value(),
        old.last().spec_role() == Role::Assistant,
    ensures
        new.len() == old.len(),
        new.drop_last() == old.drop_last(),
        new.last().spec_id() == old.last().spec_id(),
        calls_or_empty(new.last()).len() == calls_or_empty(old.last()).len() + 1,
        calls_or_empty(new.last()).drop_last() == calls_or_empty(old.last()),
        calls_or_empty(new.last()).last().id == e.tool_call_id,
        calls_or_empty(new.last()).last().function.name == e.tool_call_name,
        calls_or_empty(new.last()).last().function.arguments@.len() == 0,
{
    let calls = calls_or_empty(old.last());
    let tc = choose|tc: ToolCall| started_call(tc, e) && #[trigger] calls_replaced(old.last(), new.last(), calls.push(tc));
    assert(calls.push(tc).drop_last() =~= calls);
}

/// The run as a client sees it while handling its events.
pub struct EventHandler {
    /// The conversation so far.
    pub messages: Vec<Message>,
    /// The agent state, as JSON.
    pub state: JsonValue,
    /// The result the run finished with, `null` before.
    pub result: JsonValue,
}

impl EventHandler {
    /// A handler starting from the given messages and state.
    pub fn new(messages: Vec<Message>, state: JsonValue) -> (r: Self)
        ensures
            r.messages@ == messages@,
            r.state == state,
            r.result.text() == "null"@,
    {
        EventHandler { messages, state, result: JsonValue::null() }
    }

    /// What the client itself does with an event, before its subscribers'
    /// changes: a text message start adds an empty assistant message; text
    /// content goes to the last message; a tool call start adds the call to
    /// its parent message (or adds a message when there is none); tool call
    /// arguments go to the last call of the last message; a state snapshot
    /// replaces the state and a state delta patches it; a run's end keeps its
    /// result.  Gives the change to report, or an error when a state delta
    /// does not apply (the state then stays as it was).
    pub fn apply_event(&mut self, event: &Event) -> (r: Result<AgentStateMutation, AgUiClientError>)
        ensures
            match *event {
                Event::TextMessageStart(e) => {
                    &&& final(self).messages@.len() == old(self).messages@.len() + 1
                    &&& final(self).messages@.drop_last() == old(self).messages@
                    &&& bare_assistant(final(self).messages@.last(), e.message_id, Some(Seq::empty()))
                    &&& final(self).state == old(self).state
                    &&& r matches Ok(m) && reports_messages(m, final(self).messages@)
                },
                Event::TextMessageContent(e) => {
                    &&& final(self).messages@.len() == old(self).messages@.len()
                    &&& final(self).messages@.drop_last() == old(self).messages@.drop_last()
                    &&& old(self).messages@.len() > 0 ==> content_appended(
                        old(self).messages@.last(),
                        final(self).messages@.last(),
                        e.delta@,
                    )
                    &&& final(self).state == old(self).state
                    &&& r matches Ok(m) && if old(self).messages@.len() > 0 {
                        reports_messages(m, final(self).messages@)
                    } else {
                        reports_nothing(m)
                    }
                },
                Event::ToolCallStart(e) => {
                    &&& tool_call_started(old(self).messages@, final(self).messages@, e)
                    &&& final(self).state == old(self).state
                    &&& r matches Ok(m) && reports_messages(m, final(self).messages@)
                },
                Event::ToolCallArgs(e) => {
                    &&& tool_call_args_added(old(self).messages@, final(self).messages@, e.delta@)
                    &&& final(self).state == old(self).state
                    &&& r matches Ok(m) && if args_reach_call(old(self).messages@) {
                        reports_messages(m, final(self).messages@)
                    } else {
                        reports_nothing(m)
                    }
                },
                Event::StateSnapshot(e) => {
                    &&& final(self).messages@ == old(self).messages@
                    &&& final(self).state == e.snapshot
                    &&& r matches Ok(m) && reports_state(m, e.snapshot)
                },
                Event::StateDelta(e) => {
                    &&& final(self).messages@ == old(self).messages@
                    &&& match first_unreadable(e.delta@) {
                        Some(msg) => final(self).state == old(self).state && (r matches Err(
                            AgUiClientError::Serialization { message },
                        ) && message@ == msg),
                        None => match patch_outcome(old(self).state.text(), array_text(json_texts(e.delta@))) {
                            Ok(t) => final(self).state.text() == t && (r matches Ok(m) && reports_state(
                                m,
                                final(self).state,
                            )),
                            Err(msg) => final(self).state == old(self).state && (r matches Err(
                                AgUiClientError::Execution { message },
                            ) && message@ == "Failed to apply state patch: "@ + msg),
                        },
                    }
                },
                Event::RunFinished(e) => {
                    &&& final(self).messages@ == old(self).messages@
                    &&& final(self).state == old(self).state
                    &&& match e.result {
                        Some(v) => final(self).result == v,
                        None => final(self).result.text() == "null"@,
                    }
                    &&& r matches Ok(m) && reports_nothing(m)
                },
                _ => {
                    &&& final(self).messages@ == old(self).messages@
                    &&& final(self).state == old(self).state
                    &&& r matches Ok(m) && reports_nothing(m)
                },
            },
            !(event is RunFinished) ==> final(self).result == old(self).result,
    {
        let mut mutation = AgentStateMutation::default();
        match event {
            Event::TextMessageStart(e) => {
                let ghost before = self.messages@;
                self.messages.push(
                    Message::Assistant {
                        id: e.message_id.clone(),
                        content: Some(String::new()),
                        name: None,
                        tool_calls: None,
                        encrypted_value: None,
                    },
                );
                assert(self.messages@.drop_last() =~= before);
                mutation.messages = Some(clone_messages(&self.messages));
            },
            Event::TextMessageContent(e) => {
                if self.messages.len() > 0 {
                    let ghost before = self.messages@;
                    let mut last = self.messages.pop().unwrap();
                    let ghost old_last = last;
                    match last.content_mut() {
                        Some(c) => {
                            c.append(e.delta.as_str());
                        },
                        None => {},
                    }
                    self.messages.push(last);
                    assert(self.messages@.drop_last() =~= before.drop_last());
                    mutation.messages = Some(clone_messages(&self.messages));
                }
            },
            Event::ToolCallStart(e) => {
                let call = ToolCall::new(
                    e.tool_call_id.clone(),
                    FunctionCall { name: e.tool_call_name.clone(), arguments: String::new() },
                );
                if self.messages.len() > 0 {
                    let ghost before = self.messages@;
                    let last = self.messages.pop().unwrap();
                    let ghost old_last = last;
                    let ghost tc = call;
                    let is_parent = match &e.parent_message_id {
                        Some(p) => *last.id() == *p,
                        None => false,
                    };
                    let last = if is_parent {
                        match last {
                            Message::Assistant { id, content, name, tool_calls, encrypted_value } => {
                                let mut calls = match tool_calls {
                                    Some(c) => c,
                                    None => Vec::new(),
                                };
                                calls.push(call);
                                let ghost v = calls;
                                let m = Message::Assistant { id, content, name, tool_calls: Some(calls), encrypted_value };
                                assert(m == old_last.with_tool_calls_spec(v));
                                m
                            },
                            other => other,
                        }
                    } else {
                        last
                    };
                    self.messages.push(last);
                    assert(self.messages@.drop_last() =~= before.drop_last());
                    proof {
                        if !is_parent {
                            assert(self.messages@ =~= before);
                        } else if old_last.spec_role() == Role::Assistant {
                            assert(calls_replaced(before.last(), self.messages@.last(), calls_or_empty(before.last()).push(tc)));
                        } else {
                            assert(self.messages@ =~= before);
                        }
                    }
                } else {
                    let id = match &e.parent_message_id {
                        Some(p) => p.clone(),
                        None => MessageId::random(),
                    };
                    let ghost gid = id;
                    self.messages.push(
                        Message::Assistant { id, content: None, name: None, tool_calls: None, encrypted_value: None },
                    );
                    assert(bare_assistant(self.messages@[0], gid, None));
                }
                mutation.messages = Some(clone_messages(&self.messages));
            },
            Event::ToolCallArgs(e) => {
                if self.messages.len() > 0 {
                    let ghost before = self.messages@;
                    let last = self.messages.pop().unwrap();
                    let ghost old_last = last;
                    let ghost mut appended: Option<ToolCall> = None;
                    let mut reached = false;
                    let last = match last {
                        Message::Assistant { id, content, name, tool_calls, encrypted_value } => {
                            let mut calls = match tool_calls {
                                Some(c) => c,
                                None => Vec::new(),
                            };
                            let ghost old_calls = calls@;
                            if calls.len() > 0 {
                                let mut tc = calls.pop().unwrap();
                                tc.function.arguments.append(e.delta.as_str());
                                proof {
                                    appended = Some(tc);
                                }
                                calls.push(tc);
                                reached = true;
                            }
                            let ghost v = calls;
                            let m = Message::Assistant { id, content, name, tool_calls: Some(calls), encrypted_value };
                            proof {
                                assert(m == old_last.with_tool_calls_spec(v));
                                if old_calls.len() > 0 {
                                    assert(args_appended(old_calls.last(), appended->0, e.delta@));
                                    assert(v@ =~= old_calls.drop_last().push(appended->0));
                                } else {
                                    assert(v@ =~= Seq::<ToolCall>::empty());
                                }
                            }
                            m
                        },
                        other => other,
                    };
                    self.messages.push(last);
                    assert(self.messages@.drop_last() =~= before.drop_last());
                    proof {
                        if before.last().spec_role() != Role::Assistant {
                            assert(self.messages@ =~= before);
                        } else if calls_or_empty(before.last()).len() > 0 {
                            let calls = calls_or_empty(before.last());
                            assert(args_appended(calls.last(), appended->0, e.delta@));
                            assert(calls_replaced(before.last(), self.messages@.last(), calls.drop_last().push(appended->0)));
                        } else {
                            assert(calls_replaced(before.last(), self.messages@.last(), Seq::empty()));
                        }
                    }
                    if reached {
                        mutation.messages = Some(clone_messages(&self.messages));
                    }
                }
            },
            Event::StateSnapshot(e) => {
                self.state = e.snapshot.clone();
                mutation.state = Some(self.state.clone());
            },
            Event::StateDelta(e) => {
                match check_operations(&e.delta) {
                    Ok(()) => {},
                    Err(message) => {
                        return Err(AgUiClientError::Serialization { message });
                    },
                }
                let patch = json_array(&e.delta);
                match apply_patch_text(&self.state, &patch) {
                    Ok(v) => {
                        self.state = v;
                        mutation.state = Some(self.state.clone());
                    },
                    Err(msg) => {
                        let mut message = String::from_str("Failed to apply state patch: ");
                        message.append(msg.as_str());
                        return Err(AgUiClientError::Execution { message });
                    },
                }
            },
            Event::RunFinished(e) => {
                self.result = match &e.result {
                    Some(v) => v.clone(),
                    None => JsonValue::null(),
                };
            },
            _ => {},
        }
        Ok(mutation)
    }
}

/// The reader's message for the first of a list of JSON Patch operations
/// that cannot be read as one, if any.
pub open spec fn first_unreadable(ops: Seq<JsonValue>) -> Option<Seq<char>>
    decreases ops.len(),
{
    if ops.len() == 0 {
        None
    } else {
        match patch_operation_read(ops[0].text()) {
            Err(m) => Some(m),
            Ok(_) => first_unreadable(ops.drop_first()),
        }
    }
}

/// Reads each operation of a state delta in turn, stopping at the first that
/// cannot be read.
fn check_operations(ops: &Vec<JsonValue>) -> (r: Result<(), String>)
    ensures
        match r {
            Ok(()) => first_unreadable(ops@) is None,
            Err(e) => first_unreadable(ops@) == Some(e@),
        },
{
    let mut i: usize = 0;
    assert(ops@.subrange(0, ops@.len() as int) =~= ops@);
    while i < ops.len()
        invariant
            i <= ops@.len(),
            first_unreadable(ops@) == first_unreadable(ops@.subrange(i as int, ops@.len() as int)),
        decreases ops.len() - i,
    {
        assert(ops@.subrange(i as int, ops@.len() as int).drop_first() =~= ops@.subrange(
            i + 1,
            ops@.len() as int,
        ));
        match read_patch_operation(&ops[i]) {
            Ok(()) => {},
            Err(e) => {
                return Err(e);
            },
        }
        i = i + 1;
    }
    Ok(())
}

/// The first of a list of changes that stops the ones after it.
pub open spec fn first_stop(ms: Seq<AgentStateMutation>) -> Option<int>
    decreases ms.len(),
{
    if ms.len() == 0 {
        None
    } else if ms[0].stop_propagation {
        Some(0)
    } else {
        match first_stop(ms.drop_first()) {
            Some(k) => Some(k + 1),
            None => None,
        }
    }
}

/// The messages the last of a list of changes that sets them sets.
pub open spec fn last_messages(ms: Seq<AgentStateMutation>) -> Option<Vec<Message>>
    decreases ms.len(),
{
    if ms.len() == 0 {
        None
    } else {
        match ms.last().messages {
            Some(v) => Some(v),
            None => last_messages(ms.drop_last()),
        }
    }
}

/// The state the last of a list of changes that sets it sets.
pub open spec fn last_state(ms: Seq<AgentStateMutation>) -> Option<JsonValue>
    decreases ms.len(),
{
    if ms.len() == 0 {
        None
    } else {
        match ms.last().state {
            Some(v) => Some(v),
            None => last_state(ms.drop_last()),
        }
    }
}

/// The messages after a list of changes: the last ones set, else the old.
pub open spec fn messages_after(old: Seq<Message>, new: Seq<Message>, ms: Seq<AgentStateMutation>) -> bool {
    match last_messages(ms) {
        Some(v) => same_messages(new, v@),
        None => new == old,
    }
}

/// The state after a list of changes: the last one set, else the old.
pub open spec fn state_after_changes(old: JsonValue, ms: Seq<AgentStateMutation>) -> JsonValue {
    match last_state(ms) {
        Some(v) => v,
        None => old,
    }
}

/// The message ids of a list of messages.
pub open spec fn message_ids(ms: Seq<Message>) -> Seq<MessageId> {
    ms.map_values(|m: Message| m.spec_id())
}

/// The positions, in order, of the messages of `new` whose id is not among
/// those of `old`.
pub open spec fn new_message_positions(old: Seq<Message>, new: Seq<Message>) -> Seq<usize>
    decreases new.len(),
{
    if new.len() == 0 {
        Seq::empty()
    } else {
        let p = new_message_positions(old, new.drop_last());
        if has_uuid(message_ids(old), new.last().spec_id().uuid_value()) {
            p
        } else {
            p.push((new.len() - 1) as usize)
        }
    }
}

impl EventHandler {
    /// The text of the message being streamed: the content of the last
    /// message, empty when there is none.
    pub fn text_message_buffer(&self) -> (r: String)
        ensures
            r@ == if self.messages@.len() > 0 {
                content_or_empty(self.messages@.last())
            } else {
                Seq::empty()
            },
    {
        if self.messages.len() == 0 {
            return String::new();
        }
        match self.messages[self.messages.len() - 1].content() {
            Some(c) => c.to_owned(),
            None => String::new(),
        }
    }

    /// The tool call being streamed: the last tool call of the last message.
    pub fn last_tool_call(&self) -> (r: Option<&ToolCall>)
        ensures
            match r {
                Some(tc) => self.messages@.len() > 0 && calls_or_empty(self.messages@.last()).len() > 0 && *tc
                    == calls_or_empty(self.messages@.last()).last(),
                None => self.messages@.len() == 0 || calls_or_empty(self.messages@.last()).len() == 0,
            },
    {
        if self.messages.len() == 0 {
            return None;
        }
        match self.messages[self.messages.len() - 1].tool_calls() {
            Some(calls) => if calls.len() > 0 {
                Some(&calls[calls.len() - 1])
            } else {
                None
            },
            None => None,
        }
    }

    /// Takes in the changes that handling an event made and that the
    /// subscribers asked for, in order: each one sets the messages and the
    /// state it holds.  The first that stops propagation is the outcome and
    /// the ones after it are ignored; without one, the outcome is the
    /// handler's own change with the messages and state set last.
    pub fn resolve_mutations(&mut self, current: AgentStateMutation, mutations: Vec<AgentStateMutation>) -> (r:
        AgentStateMutation)
        ensures
            match first_stop(mutations@) {
                Some(k) => {
                    &&& r == mutations@[k]
                    &&& messages_after(old(self).messages@, final(self).messages@, mutations@.take(k + 1))
                    &&& final(self).state == state_after_changes(old(self).state, mutations@.take(k + 1))
                },
                None => {
                    &&& messages_after(old(self).messages@, final(self).messages@, mutations@)
                    &&& final(self).state == state_after_changes(old(self).state, mutations@)
                    &&& r.messages == match last_messages(mutations@) {
                        Some(v) => Some(v),
                        None => current.messages,
                    }
                    &&& r.state == match last_state(mutations@) {
                        Some(v) => Some(v),
                        None => current.state,
                    }
                    &&& r.stop_propagation == current.stop_propagation
                },
            },
            final(self).result == old(self).result,
    {
        let ghost all = mutations@;
        let count = mutations.len();
        let mut rest = mutations;
        let mut backwards: Vec<AgentStateMutation> = Vec::new();
        while rest.len() > 0
            invariant
                all.len() == count,
                rest@.len() + backwards@.len() == all.len(),
                rest@ == all.take(rest@.len() as int),
                forall|j: int| 0 <= j < backwards@.len() ==> #[trigger] backwards@[j] == all[all.len() - 1 - j],
            decreases rest@.len(),
        {
            let m = rest.pop().unwrap();
            backwards.push(m);
            assert(rest@ =~= all.take(rest@.len() as int));
        }
        let mut current = current;
        let ghost start = current;
        let mut i: usize = 0;
        assert(all.take(0) =~= Seq::<AgentStateMutation>::empty());
        while backwards.len() > 0
            invariant
                all == mutations@,
                all.len() == count,
                i + backwards@.len() == all.len(),
                forall|j: int| 0 <= j < backwards@.len() ==> #[trigger] backwards@[j] == all[all.len() - 1 - j],
                forall|j: int| 0 <= j < i ==> !(#[trigger] all[j]).stop_propagation,
                messages_after(old(self).messages@, self.messages@, all.take(i as int)),
                self.state == state_after_changes(old(self).state, all.take(i as int)),
                self.result == old(self).result,
                current.messages == match last_messages(all.take(i as int)) {
                    Some(v) => Some(v),
                    None => start.messages,
                },
                current.state == match last_state(all.take(i as int)) {
                    Some(v) => Some(v),
                    None => start.state,
                },
                current.stop_propagation == start.stop_propagation,
            decreases backwards@.len(),
        {
            let m = backwards.pop().unwrap();
            assert(m == all[i as int]);
            let ghost before = all.take(i as int);
            assert(all.take(i + 1).drop_last() =~= before);
            assert(all.take(i + 1).last() == m);
            match &m.messages {
                Some(v) => {
                    self.messages = clone_messages(v);
                },
                None => {},
            }
            match &m.state {
                Some(s) => {
                    self.state = s.clone();
                },
                None => {},
            }
            if m.stop_propagation {
                proof {
                    lemma_first_stop_at(all, i as int);
                }
                return m;
            }
            if m.messages.is_some() {
                current.messages = m.messages;
            }
            if m.state.is_some() {
                current.state = m.state;
            }
            i = i + 1;
        }
        proof {
            assert(all.take(all.len() as int) =~= all);
            lemma_no_stop(all);
        }
        current
    }

    /// Replaces the messages, giving the positions of those that are new: whose
    /// id was not among the old messages' ids.
    pub fn replace_messages(&mut self, messages: Vec<Message>) -> (r: Vec<usize>)
        ensures
            final(self).messages@ == messages@,
            r@ == new_message_positions(old(self).messages@, messages@),
            final(self).state == old(self).state,
            final(self).result == old(self).result,
    {
        let mut old_ids: Vec<MessageId> = Vec::new();
        let mut j: usize = 0;
        while j < self.messages.len()
            invariant
                j <= self.messages@.len(),
                old_ids@ == message_ids(self.messages@.take(j as int)),
            decreases self.messages.len() - j,
        {
            old_ids.push(self.messages[j].id().clone());
            assert(message_ids(self.messages@.take(j + 1)) =~= message_ids(self.messages@.take(j as int)).push(
                self.messages@[j as int].spec_id(),
            ));
            j = j + 1;
        }
        assert(self.messages@.take(self.messages@.len() as int) =~= self.messages@);
        let mut fresh: Vec<usize> = Vec::new();
        let mut k: usize = 0;
        assert(messages@.take(0) =~= Seq::<Message>::empty());
        while k < messages.len()
            invariant
                k <= messages@.len(),
                old_ids@ == message_ids(old(self).messages@),
                fresh@ == new_message_positions(old(self).messages@, messages@.take(k as int)),
            decreases messages.len() - k,
        {
            assert(messages@.take(k + 1).drop_last() =~= messages@.take(k as int));
            if !crate::finalize::contains_message(&old_ids, messages[k].id()) {
                fresh.push(k);
            }
            k = k + 1;
        }
        assert(messages@.take(messages@.len() as int) =~= messages@);
        self.messages = messages;
        fresh
    }
}

/// The first change to stop propagation is at `i` when none before it does
/// and it does.
proof fn lemma_first_stop_at(ms: Seq<AgentStateMutation>, i: int)
    requires
        0 <= i < ms.len(),
        ms[i].stop_propagation,
        forall|j: int| 0 <= j < i ==> !(#[trigger] ms[j]).stop_propagation,
    ensures
        first_stop(ms) == Some(i),
    decreases i,
{
    if i > 0 {
        assert(!ms[0].stop_propagation);
        let rest = ms.drop_first();
        assert forall|j: int| 0 <= j < i - 1 implies !(#[trigger] rest[j]).stop_propagation by {
            assert(rest[j] == ms[j + 1]);
        }
        lemma_first_stop_at(rest, i - 1);
    }
}

/// No change stops propagation when none does.
proof fn lemma_no_stop(ms: Seq<AgentStateMutation>)
    requires
        forall|j: int| 0 <= j < ms.len() ==> !(#[trigger] ms[j]).stop_propagation,
    ensures
        first_stop(ms) is None,
    decreases ms.len(),
{
    if ms.len() > 0 {
        let rest = ms.drop_first();
        assert forall|j: int| 0 <= j < rest.len() implies !(#[trigger] rest[j]).stop_propagation by {
            assert(rest[j] == ms[j + 1]);
        }
        lemma_no_stop(rest);
    }
}

} // verus!
