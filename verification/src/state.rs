//! State changes as JSON Patch (RFC 6902): the patch from one state to the
//! next, and a patch applied to a state.

use crate::error::{StateError, StateResult};
use crate::json::{apply_patch_text, array_text, clone_json_vec, diff_outcome, json_array, json_texts, patch_outcome, JsonValue};
use vstd::prelude::*;

verus! {

/// A JSON Patch describing a state change: its operations, each as JSON
/// text, in order.
#[derive(Debug)]
pub struct StatePatch(pub Vec<JsonValue>);

impl Clone for StatePatch {
    fn clone(&self) -> (r: Self)
        ensures
            r.0@ == self.0@,
    {
        StatePatch(clone_json_vec(&self.0))
    }
}

impl Default for StatePatch {
    fn default() -> (r: Self)
        ensures
            r.0@.len() == 0,
    {
        StatePatch::empty()
    }
}

impl StatePatch {
    /// A patch with no operations.
    pub fn empty() -> (r: Self)
        ensures
            r.0@.len() == 0,
    {
        StatePatch(Vec::new())
    }

    /// Whether the patch has no operations.
    pub fn is_empty(&self) -> (r: bool)
        ensures
            r == (self.0@.len() == 0),
    {
        self.0.len() == 0
    }

    /// The number of operations.
    pub fn len(&self) -> (r: usize)
        ensures
            r == self.0@.len(),
    {
        self.0.len()
    }

    /// The operations, in order.
    pub fn operations(&self) -> (r: &[JsonValue])
        ensures
            r@ == self.0@,
    {
        self.0.as_slice()
    }

    /// The operations, by value.
    pub fn into_inner(self) -> (r: Vec<JsonValue>)
        ensures
            r@ == self.0@,
    {
        self.0
    }

    /// The patch that turns the state `before` into `after`, found by JSON
    /// Patch's diff; a state that is no JSON gives a serialization error.
    pub fn between(before: &JsonValue, after: &JsonValue) -> (r: StateResult<StatePatch>)
        ensures
            match diff_outcome(before.text(), after.text()) {
                Ok(ops) => r matches Ok(p) && json_texts(p.0@) == ops,
                Err(m) => r matches Err(StateError::Serialization { reason }) && reason@ == m,
            },
    {
        match crate::json::diff_documents(before, after) {
            Ok(ops) => Ok(StatePatch(ops)),
            Err(reason) => Err(StateError::Serialization { reason }),
        }
    }

    /// The state after the patch: all its operations applied in order to
    /// `state`, or, when one fails, a patch error (`op` `apply`, `path`
    /// `unknown`) with the failure's message.
    pub fn apply_to(&self, state: &JsonValue) -> (r: StateResult<JsonValue>)
        ensures
            match patch_outcome(state.text(), array_text(json_texts(self.0@))) {
                Ok(t) => r matches Ok(v) && v.text() == t,
                Err(m) => r matches Err(StateError::PatchFailed { op, path, reason }) && op@ == "apply"@
                    && path@ == "unknown"@ && reason@ == m,
            },
    {
        let patch = json_array(&self.0);
        match apply_patch_text(state, &patch) {
            Ok(v) => Ok(v),
            Err(reason) => Err(
                StateError::PatchFailed {
                    op: String::from_str("apply"),
                    path: String::from_str("unknown"),
                    reason,
                },
            ),
        }
    }
}

} // verus!
