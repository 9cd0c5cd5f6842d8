//! Server-side stream middleware: a labelled logging transformer and the
//! tool call filter.

use crate::event::Event;
use crate::filter::{allow_of, filter_all, filter_items, filter_step, name_filtered, owned_list, step_event};
use crate::text::texts;
use vstd::prelude::*;

verus! {

/// Middleware that logs every event passing through a stream, under a label.
#[derive(Debug)]
pub struct LoggingTransformer {
    label: String,
}

impl LoggingTransformer {
    /// A logging transformer with the given label.
    pub fn new(label: &str) -> (r: Self)
        ensures
            r.label_text() == label@,
    {
        LoggingTransformer { label: label.to_owned() }
    }

    /// The label.
    pub closed spec fn label_text(&self) -> Seq<char> {
        self.label@
    }

    /// The label printed with each logged event.
    pub fn label(&self) -> (r: &str)
        ensures
            r@ == self.label_text(),
    {
        self.label.as_str()
    }
}

/// Middleware that filters tool calls based on allow/block lists; when a
/// call is dropped, its arguments, end and result are dropped too.
#[derive(Debug)]
pub struct FilterToolCallsMiddleware {
    allowed: Option<Vec<String>>,
    blocked: Vec<String>,
    blocked_ids: Vec<String>,
}

impl FilterToolCallsMiddleware {
    /// The allow list in force, if any.
    pub closed spec fn allow_model(&self) -> Option<Seq<Seq<char>>> {
        allow_of(self.allowed)
    }

    /// The block list in force.
    pub closed spec fn block_model(&self) -> Seq<Seq<char>> {
        texts(self.blocked@)
    }

    /// The ids of the dropped calls whose result has not yet been seen.
    pub closed spec fn blocked_model(&self) -> Seq<Seq<char>> {
        texts(self.blocked_ids@)
    }

    /// No id is remembered twice.
    pub closed spec fn well_formed(&self) -> bool {
        texts(self.blocked_ids@).no_duplicates()
    }

    /// Only allow the named tools (all others are blocked).
    pub fn allow(tools: &[&str]) -> (r: Self)
        ensures
            r.allow_model() == Some(tools@.map_values(|t: &str| t@)),
            r.block_model() == Seq::<Seq<char>>::empty(),
            r.blocked_model() == Seq::<Seq<char>>::empty(),
            r.well_formed(),
    {
        let r = FilterToolCallsMiddleware {
            allowed: Some(owned_list(tools)),
            blocked: Vec::new(),
            blocked_ids: Vec::new(),
        };
        proof {
            assert(texts(r.blocked@) =~= Seq::<Seq<char>>::empty());
            assert(texts(r.blocked_ids@) =~= Seq::<Seq<char>>::empty());
        }
        r
    }

    /// Block the named tools (all others are allowed).
    pub fn block(tools: &[&str]) -> (r: Self)
        ensures
            r.allow_model() is None,
            r.block_model() == tools@.map_values(|t: &str| t@),
            r.blocked_model() == Seq::<Seq<char>>::empty(),
            r.well_formed(),
    {
        let r = FilterToolCallsMiddleware {
            allowed: None,
            blocked: owned_list(tools),
            blocked_ids: Vec::new(),
        };
        proof {
            assert(texts(r.blocked_ids@) =~= Seq::<Seq<char>>::empty());
        }
        r
    }

    /// Whether calls to the tool `tool_name` are dropped.
    pub fn should_filter(&self, tool_name: &str) -> (r: bool)
        ensures
            r == name_filtered(self.allow_model(), self.block_model(), tool_name@),
    {
        let key = tool_name.to_owned();
        match &self.allowed {
            Some(a) => !crate::text::contains_text(a, &key),
            None => crate::text::contains_text(&self.blocked, &key),
        }
    }

    /// Filters one event: whether it passes.
    pub fn process_event<S>(&mut self, event: &Event<S>) -> (keep: bool)
        requires
            old(self).well_formed(),
        ensures
            final(self).well_formed(),
            final(self).allow_model() == old(self).allow_model(),
            final(self).block_model() == old(self).block_model(),
            final(self).blocked_model() == filter_step(
                old(self).allow_model(),
                old(self).block_model(),
                old(self).blocked_model(),
                *event,
            ).0,
            keep == filter_step(old(self).allow_model(), old(self).block_model(), old(self).blocked_model(), *event).1,
    {
        step_event(&self.allowed, &self.blocked, &mut self.blocked_ids, event)
    }

    /// Filters a stream of event results: the items that pass, in order.
    pub fn transform<S, E>(&mut self, items: Vec<Result<Event<S>, E>>) -> (r: Vec<Result<Event<S>, E>>)
        requires
            old(self).well_formed(),
        ensures
            final(self).well_formed(),
            final(self).allow_model() == old(self).allow_model(),
            final(self).block_model() == old(self).block_model(),
            (final(self).blocked_model(), r@) == filter_all(
                old(self).allow_model(),
                old(self).block_model(),
                old(self).blocked_model(),
                items@,
            ),
    {
        filter_items(&self.allowed, &self.blocked, &mut self.blocked_ids, items)
    }
}

} // verus!
