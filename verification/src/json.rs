//! JSON documents carried by the protocol (state, tool parameters, custom
//! payloads), held as their serialized text, and JSON Patch (RFC 6902) on
//! them through the `json_patch` crate.

use vstd::prelude::*;

verus! {

/// A JSON value, held as its JSON text.
#[derive(Debug, PartialEq, Eq)]
pub struct JsonValue(pub String);

impl JsonValue {
    /// The JSON text of the value.
    pub open spec fn text(&self) -> Seq<char> {
        self.0@
    }

    /// The JSON `null` value.
    pub fn null() -> (r: Self)
        ensures
            r.text() == "null"@,
    {
        JsonValue(String::from_str("null"))
    }

    /// A value from its JSON text, used as given.
    pub fn from_text(text: &str) -> (r: Self)
        ensures
            r.text() == text@,
    {
        JsonValue(text.to_owned())
    }

    /// The JSON text of the value.
    pub fn as_text(&self) -> (r: &str)
        ensures
            r@ == self.text(),
    {
        self.0.as_str()
    }
}

impl Clone for JsonValue {
    fn clone(&self) -> (r: Self)
        ensures
            r == *self,
    {
        JsonValue(self.0.clone())
    }
}

/// Clones an optional JSON value.
pub fn clone_opt_json(o: &Option<JsonValue>) -> (r: Option<JsonValue>)
    ensures
        r == *o,
{
    match o {
        Some(x) => Some(x.clone()),
        None => None,
    }
}

/// Clones a list of JSON values element by element.
pub fn clone_json_vec(v: &Vec<JsonValue>) -> (r: Vec<JsonValue>)
    ensures
        r@ == v@,
{
    let mut out: Vec<JsonValue> = Vec::new();
    let mut i: usize = 0;
    while i < v.len()
        invariant
            i <= v.len(),
            out@ == v@.subrange(0, i as int),
        decreases v.len() - i,
    {
        out.push(v[i].clone());
        i = i + 1;
    }
    assert(out@ =~= v@);
    out
}

/// The texts of a list of JSON values.
pub open spec fn json_texts(v: Seq<JsonValue>) -> Seq<Seq<char>> {
    v.map_values(|j: JsonValue| j.text())
}

/// What reading a JSON text as one `json_patch::PatchOperation` gives:
/// nothing when it is an object with a known `op` and the fields that
/// operation needs, else the message of `serde_json`'s error.
pub uninterp spec fn patch_operation_read(op: Seq<char>) -> Result<(), Seq<char>>;

/// Whether a JSON text is one JSON Patch operation that the `json_patch`
/// crate reads.
pub open spec fn is_patch_operation(op: Seq<char>) -> bool {
    patch_operation_read(op) is Ok
}

/// What applying a patch (a JSON array of operations) to a document with
/// `json_patch` gives, both given as JSON text: the patched document's text,
/// or the error's message when the document or the patch cannot be read or
/// an operation fails.
pub uninterp spec fn patch_outcome(doc: Seq<char>, patch: Seq<char>) -> Result<Seq<char>, Seq<char>>;

/// The operations `json_patch::diff` finds from one JSON document to
/// another, as JSON text, or the error's message when a document cannot be
/// read.
pub uninterp spec fn diff_outcome(before: Seq<char>, after: Seq<char>) -> Result<Seq<Seq<char>>, Seq<char>>;

/// The texts joined with commas.
pub open spec fn comma_joined(items: Seq<Seq<char>>) -> Seq<char>
    decreases items.len(),
{
    if items.len() == 0 {
        Seq::empty()
    } else if items.len() == 1 {
        items[0]
    } else {
        comma_joined(items.drop_last()) + ","@ + items.last()
    }
}

/// The JSON array text of a list of JSON texts.
pub open spec fn array_text(items: Seq<Seq<char>>) -> Seq<char> {
    "["@ + comma_joined(items) + "]"@
}

/// The JSON array of a list of JSON values, as text.
pub fn json_array(items: &Vec<JsonValue>) -> (r: JsonValue)
    ensures
        r.text() == array_text(json_texts(items@)),
{
    let mut out = String::from_str("[");
    let mut i: usize = 0;
    while i < items.len()
        invariant
            i <= items@.len(),
            out@ == "["@ + comma_joined(json_texts(items@.take(i as int))),
        decreases items.len() - i,
    {
        let ghost before = json_texts(items@.take(i as int));
        assert(json_texts(items@.take(i + 1)) =~= before.push(items@[i as int].text()));
        assert(json_texts(items@.take(i + 1)).drop_last() =~= before);
        if i > 0 {
            out.append(",");
        }
        out.append(items[i].as_text());
        proof {
            if i == 0 {
                assert(before =~= Seq::<Seq<char>>::empty());
            }
        }
        i = i + 1;
    }
    assert(items@.take(items@.len() as int) =~= items@);
    out.append("]");
    JsonValue(out)
}

/// Reads `op` as one JSON Patch operation: parses the text into a
/// `serde_json::Value` and calls `serde_json::from_value` for a
/// `json_patch::PatchOperation` on it, keeping the error's message.
/// Claimed: the outcome is the name `patch_operation_read` of the text,
/// nothing more.
#[verifier::external_body]
pub(crate) fn read_patch_operation(op: &JsonValue) -> (r: Result<(), String>)
    ensures
        match r {
            Ok(()) => patch_operation_read(op.text()) == Ok::<(), Seq<char>>(()),
            Err(e) => patch_operation_read(op.text()) == Err::<(), Seq<char>>(e@),
        },
{
    let value: serde_json::Value = match serde_json::from_str(&op.0) {
        Ok(v) => v,
        Err(e) => return Err(e.to_string()),
    };
    match serde_json::from_value::<json_patch::PatchOperation>(value) {
        Ok(_) => Ok(()),
        Err(e) => Err(e.to_string()),
    }
}

/// Applies a patch to a document, reading both texts with
/// `serde_json::from_str`.  The operations are applied with
/// `json_patch::patch_unsafe` to a copy of the document, and the patched
/// copy is written back with its `Display` only when every operation
/// succeeded; otherwise the operation's error is returned and the copy is
/// dropped, so the caller's document stays as it was (what
/// `json_patch::patch` reaches by undoing the applied operations, a step
/// that can itself fail and panic).
/// Claimed: the outcome is the name `patch_outcome` of the two texts.
#[verifier::external_body]
pub(crate) fn apply_patch_text(doc: &JsonValue, patch: &JsonValue) -> (r: Result<JsonValue, String>)
    ensures
        match r {
            Ok(v) => patch_outcome(doc.text(), patch.text()) == Ok::<Seq<char>, Seq<char>>(v.text()),
            Err(e) => patch_outcome(doc.text(), patch.text()) == Err::<Seq<char>, Seq<char>>(e@),
        },
{
    let mut value: serde_json::Value = match serde_json::from_str(&doc.0) {
        Ok(v) => v,
        Err(e) => return Err(e.to_string()),
    };
    let operations: json_patch::Patch = match serde_json::from_str(&patch.0) {
        Ok(p) => p,
        Err(e) => return Err(e.to_string()),
    };
    match json_patch::patch_unsafe(&mut value, &operations) {
        Ok(()) => Ok(JsonValue(value.to_string())),
        Err(e) => Err(e.to_string()),
    }
}

/// The JSON Patch operations from one document to another, found by
/// `json_patch::diff` on the texts read with `serde_json::from_str`, each
/// operation written back with its `Display`.  Claimed: the outcome is the
/// name `diff_outcome` of the two texts.  Not claimed: that the operations
/// turn `before` into `after`, which the crate shows by example only.
#[verifier::external_body]
pub(crate) fn diff_documents(before: &JsonValue, after: &JsonValue) -> (r: Result<Vec<JsonValue>, String>)
    ensures
        match r {
            Ok(ops) => diff_outcome(before.text(), after.text()) == Ok::<Seq<Seq<char>>, Seq<char>>(json_texts(ops@)),
            Err(e) => diff_outcome(before.text(), after.text()) == Err::<Seq<Seq<char>>, Seq<char>>(e@),
        },
{
    let left: serde_json::Value = match serde_json::from_str(&before.0) {
        Ok(v) => v,
        Err(e) => return Err(e.to_string()),
    };
    let right: serde_json::Value = match serde_json::from_str(&after.0) {
        Ok(v) => v,
        Err(e) => return Err(e.to_string()),
    };
    Ok(json_patch::diff(&left, &right).0.iter().map(|op| JsonValue(op.to_string())).collect())
}

} // verus!
