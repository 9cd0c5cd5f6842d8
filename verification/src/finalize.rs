//! Finalizing a run's event list so that it ends as the protocol requires:
//! every text message left open gets its end, every tool call left open its
//! end and an empty result, and a stream without a terminal event gets
//! `RUN_FINISHED`.

use crate::event::{
    BaseEvent, Event, RunFinishedEvent, TextMessageEndEvent, ToolCallEndEvent, ToolCallResultEvent,
};
use crate::filter::insert_text;
use crate::ids::{MessageId, RunId, ThreadId, ToolCallId};
use crate::message::Role;
use crate::text::{contains_text, lemma_push_no_duplicates, lemma_remove_value_no_duplicates, push_text, remove_text, texts};
use vstd::prelude::*;

verus! {

/// Whether a list of message ids holds one with the UUID `u`.
pub open spec fn has_uuid(s: Seq<MessageId>, u: u128) -> bool {
    exists|i: int| 0 <= i < s.len() && (#[trigger] s[i]).uuid_value() == u
}

/// The list without the ids whose UUID is `u`.
pub open spec fn drop_uuid(s: Seq<MessageId>, u: u128) -> Seq<MessageId>
    decreases s.len(),
{
    if s.len() == 0 {
        Seq::empty()
    } else if s.last().uuid_value() == u {
        drop_uuid(s.drop_last(), u)
    } else {
        drop_uuid(s.drop_last(), u).push(s.last())
    }
}

/// No two ids of the list share a UUID.
pub open spec fn uuids_distinct(s: Seq<MessageId>) -> bool {
    forall|i: int, j: int| 0 <= i < j < s.len() ==> (#[trigger] s[i]).uuid_value() != (#[trigger] s[j]).uuid_value()
}

/// The text messages a stream leaves open, in the order they started: a
/// start opens its id unless one equal to it is open, an end closes it.
pub open spec fn open_messages<S>(events: Seq<Event<S>>) -> Seq<MessageId>
    decreases events.len(),
{
    if events.len() == 0 {
        Seq::empty()
    } else {
        let prev = open_messages(events.drop_last());
        match events.last() {
            Event::TextMessageStart(e) => if has_uuid(prev, e.message_id.uuid_value()) {
                prev
            } else {
                prev.push(e.message_id)
            },
            Event::TextMessageEnd(e) => drop_uuid(prev, e.message_id.uuid_value()),
            _ => prev,
        }
    }
}

/// The tool calls a stream leaves open, in the order they started: a start
/// opens its id, an end or a result closes it.
pub open spec fn open_tool_calls<S>(events: Seq<Event<S>>) -> Seq<Seq<char>>
    decreases events.len(),
{
    if events.len() == 0 {
        Seq::empty()
    } else {
        let prev = open_tool_calls(events.drop_last());
        match events.last() {
            Event::ToolCallStart(e) => insert_text(prev, e.tool_call_id.0@),
            Event::ToolCallEnd(e) => prev.remove_value(e.tool_call_id.0@),
            Event::ToolCallResult(e) => prev.remove_value(e.tool_call_id.0@),
            _ => prev,
        }
    }
}

/// Whether an event ends a run.
pub open spec fn is_terminal<S>(e: Event<S>) -> bool {
    e is RunFinished || e is RunError
}

/// Whether a stream holds an event that ends a run.
pub open spec fn has_terminal<S>(events: Seq<Event<S>>) -> bool
    decreases events.len(),
{
    events.len() > 0 && (has_terminal(events.drop_last()) || is_terminal(events.last()))
}

/// Fields of an event added by finalization: no timestamp, no raw event.
pub open spec fn plain_base(b: BaseEvent) -> bool {
    b.timestamp is None && b.raw_event is None
}

/// Whether `e` ends the text message `m`.
pub open spec fn ends_message<S>(e: Event<S>, m: MessageId) -> bool {
    e matches Event::TextMessageEnd(x) && plain_base(x.base) && x.message_id == m
}

/// Whether `e` ends the tool call `t`.
pub open spec fn ends_tool_call<S>(e: Event<S>, t: Seq<char>) -> bool {
    e matches Event::ToolCallEnd(x) && plain_base(x.base) && x.tool_call_id.0@ == t
}

/// Whether `e` is the empty result of the tool call `t`, under a fresh
/// message id (a UUID, no original text).
pub open spec fn empty_result_of<S>(e: Event<S>, t: Seq<char>) -> bool {
    e matches Event::ToolCallResult(x) && plain_base(x.base) && x.tool_call_id.0@ == t && x.content@.len()
        == 0 && x.role == Role::Tool && x.message_id.raw_text() is None && x.message_id.well_formed()
}

/// Whether `e` is the `RUN_FINISHED` of the given thread and run.
pub open spec fn finishes_run<S>(e: Event<S>, thread_id: ThreadId, run_id: RunId) -> bool {
    e matches Event::RunFinished(x) && plain_base(x.base) && x.thread_id == thread_id && x.run_id == run_id
        && x.result is None
}

/// How many events finalization adds.
pub open spec fn added_count<S>(events: Seq<Event<S>>) -> int {
    open_messages(events).len() + 2 * open_tool_calls(events).len() + if has_terminal(events) {
        0int
    } else {
        1int
    }
}

/// A stream is closed: no text message or tool call left open, and a run
/// end present.
pub open spec fn stream_closed<S>(events: Seq<Event<S>>) -> bool {
    open_messages(events).len() == 0 && open_tool_calls(events).len() == 0 && has_terminal(events)
}

/// Removing the ids with a UUID keeps a list's UUIDs distinct and takes out
/// no other UUID.
proof fn lemma_drop_uuid(s: Seq<MessageId>, u: u128)
    requires
        uuids_distinct(s),
    ensures
        uuids_distinct(drop_uuid(s, u)),
        !has_uuid(drop_uuid(s, u), u),
        forall|w: u128| w != u ==> (has_uuid(drop_uuid(s, u), w) <==> has_uuid(s, w)),
    decreases s.len(),
{
    if s.len() > 0 {
        let p = s.drop_last();
        assert(uuids_distinct(p));
        lemma_drop_uuid(p, u);
        let r = drop_uuid(p, u);
        assert forall|w: u128| w != u implies (has_uuid(drop_uuid(s, u), w) <==> has_uuid(s, w)) by {
            if has_uuid(s, w) {
                let i = choose|i: int| 0 <= i < s.len() && (#[trigger] s[i]).uuid_value() == w;
                if i < s.len() - 1 {
                    assert(p[i].uuid_value() == w);
                }
            }
            if has_uuid(p, w) {
                let i = choose|i: int| 0 <= i < p.len() && (#[trigger] p[i]).uuid_value() == w;
                assert(s[i].uuid_value() == w);
            }
            if s.last().uuid_value() != u {
                if has_uuid(r.push(s.last()), w) {
                    let i = choose|i: int| 0 <= i < r.push(s.last()).len() && (#[trigger] r.push(s.last())[i]).uuid_value() == w;
                    if i < r.len() {
                        assert(r[i].uuid_value() == w);
                    }
                }
                if w == s.last().uuid_value() {
                    assert(r.push(s.last())[r.len() as int].uuid_value() == w);
                } else if has_uuid(r, w) {
                    let i = choose|i: int| 0 <= i < r.len() && (#[trigger] r[i]).uuid_value() == w;
                    assert(r.push(s.last())[i].uuid_value() == w);
                }
            }
        }
        if s.last().uuid_value() != u {
            let q = r.push(s.last());
            assert(!has_uuid(r, s.last().uuid_value())) by {
                if has_uuid(r, s.last().uuid_value()) {
                    assert(has_uuid(p, s.last().uuid_value()));
                    let i = choose|i: int| 0 <= i < p.len() && (#[trigger] p[i]).uuid_value() == s.last().uuid_value();
                    assert(s[i].uuid_value() == s[s.len() - 1].uuid_value());
                }
            }
            assert forall|i: int, j: int| 0 <= i < j < q.len() implies (#[trigger] q[i]).uuid_value() != (
            #[trigger] q[j]).uuid_value() by {
                if j == r.len() {
                    assert(q[i] == r[i]);
                    if r[i].uuid_value() == s.last().uuid_value() {
                        assert(has_uuid(r, s.last().uuid_value()));
                    }
                } else {
                    assert(q[i] == r[i] && q[j] == r[j]);
                }
            }
            assert(!has_uuid(q, u)) by {
                if has_uuid(q, u) {
                    let i = choose|i: int| 0 <= i < q.len() && (#[trigger] q[i]).uuid_value() == u;
                    if i < r.len() {
                        assert(r[i].uuid_value() == u);
                    }
                }
            }
        }
    }
}

/// Removing the UUID of the first id of a list with distinct UUIDs removes
/// just that first id.
proof fn lemma_drop_first_uuid(s: Seq<MessageId>)
    requires
        uuids_distinct(s),
        s.len() > 0,
    ensures
        drop_uuid(s, s[0].uuid_value()) == s.drop_first(),
    decreases s.len(),
{
    let u = s[0].uuid_value();
    if s.len() == 1 {
        assert(drop_uuid(s.drop_last(), u) =~= Seq::<MessageId>::empty());
        assert(s.drop_first() =~= Seq::<MessageId>::empty());
    } else {
        let p = s.drop_last();
        assert(uuids_distinct(p));
        lemma_drop_first_uuid(p);
        assert(s.last().uuid_value() != u);
        assert(p.drop_first().push(s.last()) =~= s.drop_first());
    }
}

/// The messages a stream leaves open have distinct UUIDs.
proof fn lemma_open_messages_distinct<S>(events: Seq<Event<S>>)
    ensures
        uuids_distinct(open_messages(events)),
    decreases events.len(),
{
    if events.len() > 0 {
        let prev = open_messages(events.drop_last());
        lemma_open_messages_distinct(events.drop_last());
        match events.last() {
            Event::TextMessageStart(e) => {
                if !has_uuid(prev, e.message_id.uuid_value()) {
                    let q = prev.push(e.message_id);
                    assert forall|i: int, j: int| 0 <= i < j < q.len() implies (#[trigger] q[i]).uuid_value()
                        != (#[trigger] q[j]).uuid_value() by {
                        if j == prev.len() {
                            assert(q[i] == prev[i]);
                        } else {
                            assert(q[i] == prev[i] && q[j] == prev[j]);
                        }
                    }
                }
            },
            Event::TextMessageEnd(e) => {
                lemma_drop_uuid(prev, e.message_id.uuid_value());
            },
            _ => {},
        }
    }
}

/// The tool calls a stream leaves open are distinct.
proof fn lemma_open_tool_calls_distinct<S>(events: Seq<Event<S>>)
    ensures
        open_tool_calls(events).no_duplicates(),
    decreases events.len(),
{
    if events.len() > 0 {
        let prev = open_tool_calls(events.drop_last());
        lemma_open_tool_calls_distinct(events.drop_last());
        match events.last() {
            Event::ToolCallStart(e) => {
                if !prev.contains(e.tool_call_id.0@) {
                    lemma_push_no_duplicates(prev, e.tool_call_id.0@);
                }
            },
            Event::ToolCallEnd(e) => {
                lemma_remove_value_no_duplicates(prev, e.tool_call_id.0@);
            },
            Event::ToolCallResult(e) => {
                lemma_remove_value_no_duplicates(prev, e.tool_call_id.0@);
            },
            _ => {},
        }
    }
}

/// Removing the first item of a duplicate-free list removes just it.
proof fn lemma_remove_first(s: Seq<Seq<char>>)
    requires
        s.no_duplicates(),
        s.len() > 0,
    ensures
        s.remove_value(s[0]) == s.drop_first(),
{
    s.index_of_first_ensures(s[0]);
    assert(s.index_of_first(s[0]) == Some(0int));
    assert(s.remove(0) =~= s.drop_first());
}

/// Whether the list holds an id with the UUID of `id`.
pub(crate) fn contains_message(v: &Vec<MessageId>, id: &MessageId) -> (r: bool)
    ensures
        r == has_uuid(v@, id.uuid_value()),
{
    let mut i: usize = 0;
    while i < v.len()
        invariant
            i <= v@.len(),
            forall|j: int| 0 <= j < i ==> (#[trigger] v@[j]).uuid_value() != id.uuid_value(),
        decreases v.len() - i,
    {
        if v[i] == *id {
            assert(v@[i as int].uuid_value() == id.uuid_value());
            return true;
        }
        i = i + 1;
    }
    false
}

/// The list without the ids with the UUID of `id`.
fn drop_message(v: &Vec<MessageId>, id: &MessageId) -> (r: Vec<MessageId>)
    ensures
        r@ == drop_uuid(v@, id.uuid_value()),
{
    let mut out: Vec<MessageId> = Vec::new();
    let mut i: usize = 0;
    assert(v@.take(0) =~= Seq::<MessageId>::empty());
    while i < v.len()
        invariant
            i <= v@.len(),
            out@ == drop_uuid(v@.take(i as int), id.uuid_value()),
        decreases v.len() - i,
    {
        assert(v@.take(i + 1).drop_last() =~= v@.take(i as int));
        if !(v[i] == *id) {
            out.push(v[i].clone());
        }
        i = i + 1;
    }
    assert(v@.take(v@.len() as int) =~= v@);
    out
}

/// Finalizes a run's events: appends, in this order, an end for each text
/// message left open, an end and an empty result (under a new random
/// message id) for each tool call left open, and `RUN_FINISHED` for the
/// given thread and run when no event ends the run.  Afterwards the stream
/// is closed.
pub fn finalize_run_events<S>(events: &mut Vec<Event<S>>, thread_id: &ThreadId, run_id: &RunId)
    ensures
        final(events)@.len() == old(events)@.len() + added_count(old(events)@),
        final(events)@.take(old(events)@.len() as int) == old(events)@,
        forall|k: int|
            0 <= k < open_messages(old(events)@).len() ==> ends_message(
                #[trigger] final(events)@[old(events)@.len() + k],
                open_messages(old(events)@)[k],
            ),
        forall|k: int|
            0 <= k < open_tool_calls(old(events)@).len() ==> ends_tool_call(
                #[trigger] final(events)@[old(events)@.len() + open_messages(old(events)@).len() + 2 * k],
                open_tool_calls(old(events)@)[k],
            ) && empty_result_of(
                final(events)@[old(events)@.len() + open_messages(old(events)@).len() + 2 * k + 1],
                open_tool_calls(old(events)@)[k],
            ),
        !has_terminal(old(events)@) ==> finishes_run(final(events)@.last(), *thread_id, *run_id),
        stream_closed(final(events)@),
{
    let ghost orig = events@;
    let ghost n = orig.len();
    let mut messages: Vec<MessageId> = Vec::new();
    let mut tools: Vec<String> = Vec::new();
    let mut terminal = false;
    let mut i: usize = 0;
    assert(orig.take(0) =~= Seq::<Event<S>>::empty());
    while i < events.len()
        invariant
            events@ == orig,
            i <= orig.len(),
            messages@ == open_messages(orig.take(i as int)),
            texts(tools@) == open_tool_calls(orig.take(i as int)),
            terminal == has_terminal(orig.take(i as int)),
        decreases orig.len() - i,
    {
        let ghost before = orig.take(i as int);
        assert(orig.take(i + 1).drop_last() =~= before);
        assert(orig.take(i + 1).last() == orig[i as int]);
        proof {
            lemma_open_tool_calls_distinct(before);
        }
        match &events[i] {
            Event::TextMessageStart(e) => {
                if !contains_message(&messages, &e.message_id) {
                    messages.push(e.message_id.clone());
                }
            },
            Event::TextMessageEnd(e) => {
                messages = drop_message(&messages, &e.message_id);
            },
            Event::ToolCallStart(e) => {
                let id = e.tool_call_id.to_string();
                if !contains_text(&tools, &id) {
                    push_text(&mut tools, id);
                }
            },
            Event::ToolCallEnd(e) => {
                let id = e.tool_call_id.to_string();
                remove_text(&mut tools, &id);
            },
            Event::ToolCallResult(e) => {
                let id = e.tool_call_id.to_string();
                remove_text(&mut tools, &id);
            },
            Event::RunFinished(_) => {
                terminal = true;
            },
            Event::RunError(_) => {
                terminal = true;
            },
            _ => {},
        }
        i = i + 1;
    }
    assert(orig.take(n as int) =~= orig);
    let ghost m = open_messages(orig);
    let ghost t = open_tool_calls(orig);
    proof {
        lemma_open_messages_distinct(orig);
        lemma_open_tool_calls_distinct(orig);
    }
    let mut k: usize = 0;
    while k < messages.len()
        invariant
            messages@ == m,
            uuids_distinct(m),
            k <= m.len(),
            events@.len() == n + k,
            events@.take(n as int) == orig,
            forall|j: int| 0 <= j < k ==> ends_message(#[trigger] events@[n + j], m[j]),
            open_messages(events@) == m.skip(k as int),
            open_tool_calls(events@) == t,
            has_terminal(events@) == has_terminal(orig),
        decreases m.len() - k,
    {
        let ghost before = events@;
        let id = messages[k].clone();
        events.push(Event::TextMessageEnd(TextMessageEndEvent { base: BaseEvent { timestamp: None, raw_event: None }, message_id: id }));
        proof {
            assert(events@.drop_last() =~= before);
            let rest = m.skip(k as int);
            assert(uuids_distinct(rest));
            lemma_drop_first_uuid(rest);
            assert(rest[0] == m[k as int]);
            assert(rest.drop_first() =~= m.skip(k + 1));
            assert(events@.take(n as int) =~= before.take(n as int));
        }
        k = k + 1;
    }
    let ghost after_messages = events@;
    assert(m.skip(m.len() as int) =~= Seq::<MessageId>::empty());
    let mut k: usize = 0;
    let ghost nm = m.len();
    while k < tools.len()
        invariant
            texts(tools@) == t,
            t.no_duplicates(),
            k <= t.len(),
            events@.len() == n + nm + 2 * k,
            events@.take((n + nm) as int) == after_messages,
            after_messages.len() == n + nm,
            after_messages.take(n as int) == orig,
            forall|j: int| 0 <= j < nm ==> ends_message(#[trigger] after_messages[n + j], m[j]),
            forall|j: int| 0 <= j < k ==> ends_tool_call(#[trigger] events@[n + nm + 2 * j], t[j]) && empty_result_of(events@[n + nm + 2 * j + 1], t[j]),
            open_messages(events@).len() == 0,
            open_tool_calls(events@) == t.skip(k as int),
            has_terminal(events@) == has_terminal(orig),
        decreases t.len() - k,
    {
        let ghost before = events@;
        let text = tools[k].clone();
        assert(text@ == t[k as int]);
        events.push(Event::ToolCallEnd(ToolCallEndEvent { base: BaseEvent { timestamp: None, raw_event: None }, tool_call_id: ToolCallId(text.clone()) }));
        let ghost middle = events@;
        events.push(Event::ToolCallResult(ToolCallResultEvent {
            base: BaseEvent { timestamp: None, raw_event: None },
            message_id: MessageId::random(),
            tool_call_id: ToolCallId(text),
            content: String::new(),
            role: Role::Tool,
        }));
        proof {
            assert(middle.drop_last() =~= before);
            assert(events@.drop_last() =~= middle);
            assert(open_messages(middle) == open_messages(before));
            assert(open_messages(events@) == open_messages(middle));
            assert(has_terminal(middle) == has_terminal(before));
            assert(has_terminal(events@) == has_terminal(middle));
            assert(open_tool_calls(middle) == open_tool_calls(before).remove_value(t[k as int]));
            assert(open_tool_calls(events@) == open_tool_calls(middle).remove_value(t[k as int]));
            let rest = t.skip(k as int);
            assert(rest.no_duplicates());
            lemma_remove_first(rest);
            assert(rest[0] == t[k as int]);
            assert(rest.drop_first() =~= t.skip(k + 1));
            lemma_remove_value_no_duplicates(rest, t[k as int]);
            assert(!t.skip(k + 1).contains(t[k as int]));
            assert(t.skip(k + 1).remove_value(t[k as int]) =~= t.skip(k + 1)) by {
                t.skip(k + 1).index_of_first_ensures(t[k as int]);
            }
            assert(events@.take((n + nm) as int) =~= before.take((n + nm) as int));
        }
        k = k + 1;
    }
    assert(t.skip(t.len() as int) =~= Seq::<Seq<char>>::empty());
    let ghost closed = events@;
    assert forall|j: int| 0 <= j < nm implies ends_message(#[trigger] closed[n + j], m[j]) by {
        assert(closed[n + j] == after_messages[n + j]);
    }
    assert(closed.take(n as int) =~= orig);
    if !terminal {
        events.push(Event::RunFinished(RunFinishedEvent {
            base: BaseEvent { timestamp: None, raw_event: None },
            thread_id: thread_id.clone(),
            run_id: run_id.clone(),
            result: None,
        }));
        assert(events@.drop_last() =~= closed);
        assert(open_messages(events@) == open_messages(closed));
        assert(open_tool_calls(events@) == open_tool_calls(closed));
    }
    assert forall|j: int| 0 <= j < nm implies ends_message(#[trigger] events@[n + j], m[j]) by {
        assert(events@[n + j] == closed[n + j]);
    }
    assert forall|j: int| 0 <= j < t.len() implies ends_tool_call(#[trigger] events@[n + nm + 2 * j], t[j])
        && empty_result_of(events@[n + nm + 2 * j + 1], t[j]) by {
        assert(events@[n + nm + 2 * j] == closed[n + nm + 2 * j]);
        assert(events@[n + nm + 2 * j + 1] == closed[n + nm + 2 * j + 1]);
    }
    assert(events@.take(n as int) =~= orig);
}

/// Which tool calls are open after one more event: a start opens its call,
/// an end or a result closes its call, and every other call, and every
/// other event, leaves the open calls as they were.
pub proof fn lemma_open_tool_call_after_event<S>(events: Seq<Event<S>>, e: Event<S>, t: Seq<char>)
    ensures
        open_tool_calls(events.push(e)).contains(t) <==> {
            ||| e matches Event::ToolCallStart(x) && x.tool_call_id.0@ == t
            ||| open_tool_calls(events).contains(t) && !(e matches Event::ToolCallEnd(x) && x.tool_call_id.0@ == t)
                && !(e matches Event::ToolCallResult(x) && x.tool_call_id.0@ == t)
        },
{
    let s = events.push(e);
    assert(s.drop_last() =~= events);
    assert(s.last() == e);
    let prev = open_tool_calls(events);
    lemma_open_tool_calls_distinct(events);
    match e {
        Event::ToolCallStart(x) => {
            if !prev.contains(x.tool_call_id.0@) {
                assert(prev.push(x.tool_call_id.0@)[prev.len() as int] == x.tool_call_id.0@);
                assert(prev.push(x.tool_call_id.0@).contains(t) <==> (prev.contains(t) || t == x.tool_call_id.0@)) by {
                    if prev.push(x.tool_call_id.0@).contains(t) {
                        let i = choose|i: int| 0 <= i < prev.len() + 1 && prev.push(x.tool_call_id.0@)[i] == t;
                        if i < prev.len() {
                            assert(prev[i] == t);
                        }
                    }
                    if prev.contains(t) {
                        let i = choose|i: int| 0 <= i < prev.len() && prev[i] == t;
                        assert(prev.push(x.tool_call_id.0@)[i] == t);
                    }
                }
            }
        },
        Event::ToolCallEnd(x) => {
            lemma_remove_value_no_duplicates(prev, x.tool_call_id.0@);
        },
        Event::ToolCallResult(x) => {
            lemma_remove_value_no_duplicates(prev, x.tool_call_id.0@);
        },
        _ => {},
    }
}

/// Which text messages are open after one more event: a start opens its
/// message, an end closes it, and every other message, and every other
/// event, leaves the open messages as they were.
pub proof fn lemma_open_message_after_event<S>(events: Seq<Event<S>>, e: Event<S>, u: u128)
    ensures
        has_uuid(open_messages(events.push(e)), u) <==> {
            ||| e matches Event::TextMessageStart(x) && x.message_id.uuid_value() == u
            ||| has_uuid(open_messages(events), u) && !(e matches Event::TextMessageEnd(x) && x.message_id.uuid_value()
                == u)
        },
{
    let s = events.push(e);
    assert(s.drop_last() =~= events);
    assert(s.last() == e);
    let prev = open_messages(events);
    lemma_open_messages_distinct(events);
    match e {
        Event::TextMessageStart(x) => {
            let q = prev.push(x.message_id);
            if !has_uuid(prev, x.message_id.uuid_value()) {
                assert(q[prev.len() as int] == x.message_id);
                assert(has_uuid(q, u) <==> (has_uuid(prev, u) || u == x.message_id.uuid_value())) by {
                    if has_uuid(q, u) {
                        let i = choose|i: int| 0 <= i < q.len() && (#[trigger] q[i]).uuid_value() == u;
                        if i < prev.len() {
                            assert(prev[i].uuid_value() == u);
                        }
                    }
                    if has_uuid(prev, u) {
                        let i = choose|i: int| 0 <= i < prev.len() && (#[trigger] prev[i]).uuid_value() == u;
                        assert(q[i].uuid_value() == u);
                    }
                }
            }
        },
        Event::TextMessageEnd(x) => {
            lemma_drop_uuid(prev, x.message_id.uuid_value());
        },
        _ => {},
    }
}

/// A stream has a run end once a `RUN_FINISHED` or `RUN_ERROR` is added, and
/// any other event leaves that as it was.
pub proof fn lemma_terminal_after_event<S>(events: Seq<Event<S>>, e: Event<S>)
    ensures
        (e is RunFinished || e is RunError) ==> has_terminal(events.push(e)),
        !(e is RunFinished || e is RunError) ==> has_terminal(events.push(e)) == has_terminal(events),
{
    assert(events.push(e).drop_last() =~= events);
}

/// A tool call whose last event is its end or its result is not open, so
/// finalization adds neither an end nor a result for it; one whose last
/// event is its start is open.
pub proof fn lemma_ended_tool_call_is_not_open<S>(events: Seq<Event<S>>)
    requires
        events.len() > 0,
    ensures
        events.last() matches Event::ToolCallEnd(x) ==> !open_tool_calls(events).contains(x.tool_call_id.0@),
        events.last() matches Event::ToolCallResult(x) ==> !open_tool_calls(events).contains(x.tool_call_id.0@),
        events.last() matches Event::ToolCallStart(x) ==> open_tool_calls(events).contains(x.tool_call_id.0@),
{
    let e = events.last();
    assert(events.drop_last().push(e) =~= events);
    match e {
        Event::ToolCallEnd(x) => lemma_open_tool_call_after_event(events.drop_last(), e, x.tool_call_id.0@),
        Event::ToolCallResult(x) => lemma_open_tool_call_after_event(events.drop_last(), e, x.tool_call_id.0@),
        Event::ToolCallStart(x) => lemma_open_tool_call_after_event(events.drop_last(), e, x.tool_call_id.0@),
        _ => {},
    }
}

/// A text message whose last event is its end is not open, so finalization
/// adds no end for it; one whose last event is its start is open.
pub proof fn lemma_ended_message_is_not_open<S>(events: Seq<Event<S>>)
    requires
        events.len() > 0,
    ensures
        events.last() matches Event::TextMessageEnd(x) ==> !has_uuid(open_messages(events), x.message_id.uuid_value()),
        events.last() matches Event::TextMessageStart(x) ==> has_uuid(open_messages(events), x.message_id.uuid_value()),
{
    let e = events.last();
    assert(events.drop_last().push(e) =~= events);
    match e {
        Event::TextMessageEnd(x) => lemma_open_message_after_event(events.drop_last(), e, x.message_id.uuid_value()),
        Event::TextMessageStart(x) => lemma_open_message_after_event(
            events.drop_last(),
            e,
            x.message_id.uuid_value(),
        ),
        _ => {},
    }
}

/// Finalization is idempotent: a closed stream, such as one finalization
/// gave, gets no event added.
pub proof fn lemma_finalizing_closed_stream_adds_nothing<S>(events: Seq<Event<S>>)
    requires
        stream_closed(events),
    ensures
        added_count(events) == 0,
{
}

} // verus!
