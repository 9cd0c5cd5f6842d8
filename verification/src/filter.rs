//! Tool call filtering: drops the calls to tools that an allow list does not
//! name, or that a block list names, together with all events that belong to
//! a dropped call (arguments, end, result, chunks).

use crate::event::Event;
use crate::text::{clone_strings, contains_text, lemma_push_no_duplicates, lemma_remove_value_no_duplicates, push_text, remove_text, texts};
use vstd::prelude::*;

verus! {

/// Whether a call to the tool `name` is dropped: with an allow list, when
/// the list lacks the name; otherwise when the block list holds it.
pub open spec fn name_filtered(allow: Option<Seq<Seq<char>>>, block: Seq<Seq<char>>, name: Seq<char>) -> bool {
    match allow {
        Some(a) => !a.contains(name),
        None => block.contains(name),
    }
}

/// Adds `x` to a duplicate-free list, as a set insertion.
pub open spec fn insert_text(s: Seq<Seq<char>>, x: Seq<char>) -> Seq<Seq<char>> {
    if s.contains(x) {
        s
    } else {
        s.push(x)
    }
}

/// One filtering step: the ids of dropped calls after the event, and whether
/// the event passes.
///
/// A tool call start to a filtered tool is dropped and its id remembered; the
/// arguments, end and chunks of a remembered call are dropped; its result is
/// dropped and the id forgotten.  All other events pass.
pub open spec fn filter_step<S>(
    allow: Option<Seq<Seq<char>>>,
    block: Seq<Seq<char>>,
    blocked: Seq<Seq<char>>,
    e: Event<S>,
) -> (Seq<Seq<char>>, bool) {
    match e {
        Event::ToolCallStart(x) => if name_filtered(allow, block, x.tool_call_name@) {
            (insert_text(blocked, x.tool_call_id.0@), false)
        } else {
            (blocked, true)
        },
        Event::ToolCallArgs(x) => (blocked, !blocked.contains(x.tool_call_id.0@)),
        Event::ToolCallEnd(x) => (blocked, !blocked.contains(x.tool_call_id.0@)),
        Event::ToolCallResult(x) => if blocked.contains(x.tool_call_id.0@) {
            (blocked.remove_value(x.tool_call_id.0@), false)
        } else {
            (blocked, true)
        },
        Event::ToolCallChunk(x) => match x.tool_call_id {
            Some(id) => (blocked, !blocked.contains(id.0@)),
            None => (blocked, true),
        },
        _ => (blocked, true),
    }
}

/// One filtering step on a stream item; errors pass unchanged.
pub open spec fn filter_item<S, E>(
    allow: Option<Seq<Seq<char>>>,
    block: Seq<Seq<char>>,
    blocked: Seq<Seq<char>>,
    item: Result<Event<S>, E>,
) -> (Seq<Seq<char>>, bool) {
    match item {
        Ok(e) => filter_step(allow, block, blocked, e),
        Err(_) => (blocked, true),
    }
}

/// Filtering a whole stream: the remembered ids at the end and the items
/// that pass, in order.
pub open spec fn filter_all<S, E>(
    allow: Option<Seq<Seq<char>>>,
    block: Seq<Seq<char>>,
    blocked: Seq<Seq<char>>,
    items: Seq<Result<Event<S>, E>>,
) -> (Seq<Seq<char>>, Seq<Result<Event<S>, E>>)
    decreases items.len(),
{
    if items.len() == 0 {
        (blocked, Seq::empty())
    } else {
        let (b, out) = filter_all(allow, block, blocked, items.drop_last());
        let (b2, keep) = filter_item(allow, block, b, items.last());
        (b2, if keep { out.push(items.last()) } else { out })
    }
}

/// The texts of an optional allow list.
pub open spec fn allow_of(allow: Option<Vec<String>>) -> Option<Seq<Seq<char>>> {
    match allow {
        Some(a) => Some(texts(a@)),
        None => None,
    }
}

/// Checks whether `name` is in `list`.
fn list_contains(list: &Vec<String>, name: &str) -> (r: bool)
    ensures
        r == texts(list@).contains(name@),
{
    let key = name.to_owned();
    contains_text(list, &key)
}

/// Builds a list of owned strings.
pub(crate) fn owned_list(tools: &[&str]) -> (r: Vec<String>)
    ensures
        texts(r@) == tools@.map_values(|t: &str| t@),
{
    let mut out: Vec<String> = Vec::new();
    let mut i: usize = 0;
    while i < tools.len()
        invariant
            i <= tools.len(),
            out@.len() == i,
            forall|j: int| 0 <= j < i ==> (#[trigger] out@[j])@ == tools@[j]@,
        decreases tools.len() - i,
    {
        let t: &str = tools[i];
        let o = t.to_owned();
        out.push(o);
        i = i + 1;
    }
    proof {
        assert(texts(out@) =~= tools@.map_values(|t: &str| t@));
    }
    out
}

/// The set of remembered ids and the step on one event, shared by both
/// filtering middlewares.
pub(crate) fn step_event<S>(
    allow: &Option<Vec<String>>,
    block: &Vec<String>,
    blocked: &mut Vec<String>,
    event: &Event<S>,
) -> (keep: bool)
    requires
        texts(old(blocked)@).no_duplicates(),
    ensures
        texts(final(blocked)@).no_duplicates(),
        texts(final(blocked)@) == filter_step(allow_of(*allow), texts(block@), texts(old(blocked)@), *event).0,
        keep == filter_step(allow_of(*allow), texts(block@), texts(old(blocked)@), *event).1,
{
    let ghost allow_m = allow_of(*allow);
    match event {
        Event::ToolCallStart(e) => {
            let filtered = match allow {
                Some(a) => !list_contains(a, e.tool_call_name.as_str()),
                None => list_contains(block, e.tool_call_name.as_str()),
            };
            if filtered {
                let id = e.tool_call_id.to_string();
                if !contains_text(blocked, &id) {
                    proof {
                        lemma_push_no_duplicates(texts(blocked@), id@);
                    }
                    push_text(blocked, id);
                }
                false
            } else {
                true
            }
        },
        Event::ToolCallArgs(e) => {
            let id = e.tool_call_id.to_string();
            !contains_text(blocked, &id)
        },
        Event::ToolCallEnd(e) => {
            let id = e.tool_call_id.to_string();
            !contains_text(blocked, &id)
        },
        Event::ToolCallResult(e) => {
            let id = e.tool_call_id.to_string();
            if contains_text(blocked, &id) {
                proof {
                    lemma_remove_value_no_duplicates(texts(blocked@), id@);
                }
                remove_text(blocked, &id);
                false
            } else {
                true
            }
        },
        Event::ToolCallChunk(e) => match &e.tool_call_id {
            Some(tid) => {
                let id = tid.to_string();
                !contains_text(blocked, &id)
            },
            None => true,
        },
        _ => true,
    }
}

/// Runs the filtering step over a list of stream items.
pub(crate) fn filter_items<S, E>(
    allow: &Option<Vec<String>>,
    block: &Vec<String>,
    blocked: &mut Vec<String>,
    items: Vec<Result<Event<S>, E>>,
) -> (r: Vec<Result<Event<S>, E>>)
    requires
        texts(old(blocked)@).no_duplicates(),
    ensures
        texts(final(blocked)@).no_duplicates(),
        (texts(final(blocked)@), r@) == filter_all(
            allow_of(*allow),
            texts(block@),
            texts(old(blocked)@),
            items@,
        ),
{
    let ghost allow_m = allow_of(*allow);
    let ghost input = items@;
    let ghost start = texts(blocked@);
    let mut out: Vec<Result<Event<S>, E>> = Vec::new();
    let mut src = items;
    let mut rest: Vec<Result<Event<S>, E>> = Vec::new();
    while src.len() > 0
        invariant
            src@ == input.subrange(0, input.len() - rest@.len()),
            rest@.len() <= input.len(),
            forall|j: int| 0 <= j < rest@.len() ==> rest@[j] == input[input.len() - 1 - j],
        decreases src.len(),
    {
        let x = src.pop().unwrap();
        rest.push(x);
    }
    let n = rest.len();
    assert(n == input.len());
    let mut i: usize = 0;
    proof {
        assert(input.subrange(0, 0) =~= Seq::<Result<Event<S>, E>>::empty());
    }
    while rest.len() > 0
        invariant
            i + rest@.len() == input.len(),
            input.len() <= usize::MAX,
            allow_m == allow_of(*allow),
            forall|j: int| 0 <= j < rest@.len() ==> rest@[j] == input[input.len() - 1 - j],
            texts(blocked@).no_duplicates(),
            (texts(blocked@), out@) == filter_all(allow_m, texts(block@), start, input.subrange(0, i as int)),
        decreases rest.len(),
    {
        let item = rest.pop().unwrap();
        let ghost prefix = input.subrange(0, i as int + 1);
        proof {
            assert(item == input[i as int]);
            assert(prefix.drop_last() =~= input.subrange(0, i as int));
            assert(prefix.last() == item);
        }
        let ghost b0 = texts(blocked@);
        let ghost out0 = out@;
        let keep = match &item {
            Ok(e) => {
                let k = step_event(allow, block, blocked, e);
                assert(texts(blocked@) == filter_step(allow_m, texts(block@), b0, *e).0);
                assert(k == filter_step(allow_m, texts(block@), b0, *e).1);
                k
            },
            Err(_) => true,
        };
        proof {
            assert((texts(blocked@), keep) == filter_item(allow_m, texts(block@), b0, item));
            assert((b0, out0) == filter_all(allow_m, texts(block@), start, prefix.drop_last()));
        }
        if keep {
            out.push(item);
        }
        i = i + 1;
        proof {
            assert(prefix =~= input.subrange(0, i as int));
        }
    }
    proof {
        assert(input.subrange(0, i as int) =~= input);
    }
    out
}

/// Configuration for tool call filtering.
#[derive(Debug)]
pub enum FilterConfig {
    /// Only allow tools in this list (block all others).
    Allow(Vec<String>),
    /// Block tools in this list (allow all others).
    Block(Vec<String>),
}

impl Clone for FilterConfig {
    fn clone(&self) -> (r: Self)
        ensures
            match (*self, r) {
                (FilterConfig::Allow(a), FilterConfig::Allow(b)) => a@ == b@,
                (FilterConfig::Block(a), FilterConfig::Block(b)) => a@ == b@,
                _ => false,
            },
    {
        match self {
            FilterConfig::Allow(v) => FilterConfig::Allow(clone_strings(v)),
            FilterConfig::Block(v) => FilterConfig::Block(clone_strings(v)),
        }
    }
}

impl FilterConfig {
    /// The allow list, if this is an allow configuration.
    pub open spec fn allow_model(&self) -> Option<Seq<Seq<char>>> {
        match self {
            FilterConfig::Allow(a) => Some(texts(a@)),
            FilterConfig::Block(_) => None,
        }
    }

    /// The block list (empty for an allow configuration).
    pub open spec fn block_model(&self) -> Seq<Seq<char>> {
        match self {
            FilterConfig::Allow(_) => Seq::empty(),
            FilterConfig::Block(b) => texts(b@),
        }
    }

    /// A configuration that allows only the named tools.
    pub fn allow(tools: &[&str]) -> (r: Self)
        ensures
            r.allow_model() == Some(tools@.map_values(|t: &str| t@)),
    {
        FilterConfig::Allow(owned_list(tools))
    }

    /// A configuration that blocks the named tools.
    pub fn block(tools: &[&str]) -> (r: Self)
        ensures
            r.allow_model() is None,
            r.block_model() == tools@.map_values(|t: &str| t@),
    {
        FilterConfig::Block(owned_list(tools))
    }
}

/// Middleware that filters tool calls based on an allow or block list.
#[derive(Debug)]
pub struct FilterToolCallsMiddleware {
    allow: Option<Vec<String>>,
    block: Vec<String>,
    blocked_ids: Vec<String>,
}

impl FilterToolCallsMiddleware {
    /// The allow list in force, if any.
    pub closed spec fn allow_model(&self) -> Option<Seq<Seq<char>>> {
        allow_of(self.allow)
    }

    /// The block list in force.
    pub closed spec fn block_model(&self) -> Seq<Seq<char>> {
        texts(self.block@)
    }

    /// The ids of the dropped calls whose result has not yet been seen.
    pub closed spec fn blocked_model(&self) -> Seq<Seq<char>> {
        texts(self.blocked_ids@)
    }

    /// No id is remembered twice.
    pub closed spec fn well_formed(&self) -> bool {
        texts(self.blocked_ids@).no_duplicates()
    }

    /// A middleware with the given configuration and no dropped calls yet.
    pub fn new(config: FilterConfig) -> (r: Self)
        ensures
            r.allow_model() == config.allow_model(),
            r.block_model() == config.block_model(),
            r.blocked_model() == Seq::<Seq<char>>::empty(),
            r.well_formed(),
    {
        let r = match config {
            FilterConfig::Allow(a) => FilterToolCallsMiddleware {
                allow: Some(a),
                block: Vec::new(),
                blocked_ids: Vec::new(),
            },
            FilterConfig::Block(b) => FilterToolCallsMiddleware {
                allow: None,
                block: b,
                blocked_ids: Vec::new(),
            },
        };
        proof {
            assert(texts(r.blocked_ids@) =~= Seq::<Seq<char>>::empty());
        }
        r
    }

    /// Whether calls to the tool `tool_name` are dropped.
    pub fn should_filter(&self, tool_name: &str) -> (r: bool)
        ensures
            r == name_filtered(self.allow_model(), self.block_model(), tool_name@),
    {
        match &self.allow {
            Some(a) => !list_contains(a, tool_name),
            None => list_contains(&self.block, tool_name),
        }
    }

    /// The ids of dropped calls whose result has not been seen yet.
    pub fn blocked_ids(&self) -> (r: &Vec<String>)
        ensures
            texts(r@) == self.blocked_model(),
    {
        &self.blocked_ids
    }

    /// Filters one event: whether it passes, remembering or forgetting the
    /// ids of dropped calls.
    pub fn process_event<S>(&mut self, event: &Event<S>) -> (keep: bool)
        requires
            old(self).well_formed(),
        ensures
            final(self).well_formed(),
            final(self).allow_model() == old(self).allow_model(),
            final(self).block_model() == old(self).block_model(),
            (final(self).blocked_model(), keep) == filter_step(
                old(self).allow_model(),
                old(self).block_model(),
                old(self).blocked_model(),
                *event,
            ),
    {
        step_event(&self.allow, &self.block, &mut self.blocked_ids, event)
    }

    /// Filters a stream of event results: the items that pass, in order.
    pub fn transform<S, E>(&mut self, items: Vec<Result<Event<S>, E>>) -> (r: Vec<Result<Event<S>, E>>)
        requires
            old(self).well_formed(),
        ensures
            final(self).well_formed(),
            final(self).allow_model() == old(self).allow_model(),
            final(self).block_model() == old(self).block_model(),
            (final(self).blocked_model(), r@) == filter_all(
                old(self).allow_model(),
                old(self).block_model(),
                old(self).blocked_model(),
                items@,
            ),
    {
        filter_items(&self.allow, &self.block, &mut self.blocked_ids, items)
    }
}

/// Whether a stream item is a tool call start that passes the filter.
pub open spec fn passes_as_allowed_start<S, E>(
    allow: Option<Seq<Seq<char>>>,
    block: Seq<Seq<char>>,
    item: Result<Event<S>, E>,
) -> bool {
    match item {
        Ok(Event::ToolCallStart(x)) => !name_filtered(allow, block, x.tool_call_name@),
        _ => true,
    }
}

/// No call to a filtered tool gets through: every tool call start in the
/// filtered stream names a tool the configuration lets through.
pub proof fn lemma_filtered_stream_starts_only_allowed_tools<S, E>(
    allow: Option<Seq<Seq<char>>>,
    block: Seq<Seq<char>>,
    blocked: Seq<Seq<char>>,
    items: Seq<Result<Event<S>, E>>,
)
    ensures
        forall|i: int| 0 <= i < filter_all(allow, block, blocked, items).1.len()
            ==> passes_as_allowed_start(allow, block, #[trigger] filter_all(allow, block, blocked, items).1[i]),
    decreases items.len(),
{
    if items.len() > 0 {
        lemma_filtered_stream_starts_only_allowed_tools(allow, block, blocked, items.drop_last());
        let (b, out) = filter_all(allow, block, blocked, items.drop_last());
        let (b2, keep) = filter_item(allow, block, b, items.last());
        let res = filter_all(allow, block, blocked, items).1;
        assert forall|i: int| 0 <= i < res.len() implies passes_as_allowed_start(allow, block, #[trigger] res[i]) by {
            if i < out.len() {
                assert(res[i] == out[i]);
            } else {
                assert(keep);
                assert(res[i] == items.last());
            }
        }
    }
}

/// The filtered stream is a subsequence of the input: every item that
/// passes is an input item, and the output is never longer.
pub proof fn lemma_filter_only_drops<S, E>(
    allow: Option<Seq<Seq<char>>>,
    block: Seq<Seq<char>>,
    blocked: Seq<Seq<char>>,
    items: Seq<Result<Event<S>, E>>,
)
    ensures
        filter_all(allow, block, blocked, items).1.len() <= items.len(),
        forall|i: int| 0 <= i < filter_all(allow, block, blocked, items).1.len()
            ==> items.contains(#[trigger] filter_all(allow, block, blocked, items).1[i]),
    decreases items.len(),
{
    if items.len() > 0 {
        lemma_filter_only_drops(allow, block, blocked, items.drop_last());
        let (b, out) = filter_all(allow, block, blocked, items.drop_last());
        let res = filter_all(allow, block, blocked, items).1;
        assert forall|i: int| 0 <= i < res.len() implies items.contains(#[trigger] res[i]) by {
            if i < out.len() {
                assert(res[i] == out[i]);
                let k = choose|k: int| 0 <= k < items.drop_last().len() && items.drop_last()[k] == out[i];
                assert(items[k] == out[i]);
            } else {
                assert(res[i] == items[items.len() - 1]);
            }
        }
    }
}

/// Events other than tool call events, and errors, always pass and leave
/// the remembered ids unchanged.
pub proof fn lemma_other_items_pass<S, E>(
    allow: Option<Seq<Seq<char>>>,
    block: Seq<Seq<char>>,
    blocked: Seq<Seq<char>>,
    item: Result<Event<S>, E>,
)
    requires
        !(item matches Ok(Event::ToolCallStart(_))),
        !(item matches Ok(Event::ToolCallArgs(_))),
        !(item matches Ok(Event::ToolCallEnd(_))),
        !(item matches Ok(Event::ToolCallResult(_))),
        !(item matches Ok(Event::ToolCallChunk(_))),
    ensures
        filter_item(allow, block, blocked, item) == (blocked, true),
{
}

/// What one tool call event does to the filter: a start passes exactly when
/// its tool is allowed (in the allow list when there is one, else not in the
/// block list), and a dropped start remembers its id; arguments, end and
/// chunks pass exactly when their id is not remembered, and leave the
/// remembered ids unchanged.
pub proof fn lemma_tool_call_events_pass_unless_dropped<S>(
    allow: Option<Seq<Seq<char>>>,
    block: Seq<Seq<char>>,
    blocked: Seq<Seq<char>>,
    e: Event<S>,
)
    ensures
        e matches Event::ToolCallStart(x) ==> (filter_step(allow, block, blocked, e).1 <==> match allow {
            Some(a) => a.contains(x.tool_call_name@),
            None => !block.contains(x.tool_call_name@),
        }),
        e matches Event::ToolCallStart(x) ==> if filter_step(allow, block, blocked, e).1 {
            filter_step(allow, block, blocked, e).0 == blocked
        } else {
            filter_step(allow, block, blocked, e).0.contains(x.tool_call_id.0@)
        },
        e matches Event::ToolCallArgs(x) ==> (filter_step(allow, block, blocked, e).1 <==> !blocked.contains(
            x.tool_call_id.0@,
        )) && filter_step(allow, block, blocked, e).0 == blocked,
        e matches Event::ToolCallEnd(x) ==> (filter_step(allow, block, blocked, e).1 <==> !blocked.contains(
            x.tool_call_id.0@,
        )) && filter_step(allow, block, blocked, e).0 == blocked,
        e matches Event::ToolCallChunk(x) ==> (filter_step(allow, block, blocked, e).1 <==> !(x.tool_call_id matches Some(
            id,
        ) && blocked.contains(id.0@))) && filter_step(allow, block, blocked, e).0 == blocked,
{
    if let Event::ToolCallStart(x) = e {
        let id = x.tool_call_id.0@;
        if !blocked.contains(id) {
            assert(blocked.push(id)[blocked.len() as int] == id);
        }
    }
}

/// The arguments and end of a dropped call are dropped; its result is
/// dropped too and forgets the call, so later events with that id pass.
pub proof fn lemma_dropped_call_stays_dropped_until_result<S>(
    allow: Option<Seq<Seq<char>>>,
    block: Seq<Seq<char>>,
    blocked: Seq<Seq<char>>,
    e: Event<S>,
)
    requires
        blocked.no_duplicates(),
    ensures
        e matches Event::ToolCallArgs(x) && blocked.contains(x.tool_call_id.0@) ==> !filter_step(allow, block, blocked, e).1,
        e matches Event::ToolCallEnd(x) && blocked.contains(x.tool_call_id.0@) ==> !filter_step(allow, block, blocked, e).1,
        e matches Event::ToolCallResult(x) && blocked.contains(x.tool_call_id.0@) ==> !filter_step(allow, block, blocked, e).1,
        e matches Event::ToolCallResult(x) ==> !filter_step(allow, block, blocked, e).0.contains(x.tool_call_id.0@),
{
    if let Event::ToolCallResult(x) = e {
        lemma_remove_value_no_duplicates(blocked, x.tool_call_id.0@);
    }
}

} // verus!
