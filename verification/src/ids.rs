//! Identifiers used by the AG-UI protocol.
//!
//! Agent, thread, run and message identifiers are UUIDs.  Servers may send
//! arbitrary strings instead (for example LangGraph's `lc_run--...`); such a
//! string is mapped to a deterministic UUID (version 5 in the OID namespace)
//! while the original text is kept, so that it is written back unchanged.
//! Tool call identifiers are plain provider-specific strings.

use core::marker::PhantomData;
use vstd::prelude::*;

verus! {

/// The UUID that `uuid::Uuid::parse_str` reads from `text`, or `None` when it
/// rejects the text.
pub uninterp spec fn uuid_parsed(text: Seq<char>) -> Option<u128>;

/// The version-5 UUID that `uuid::Uuid::new_v5` derives from `name` in the OID
/// namespace.
pub uninterp spec fn uuid_v5_oid(name: Seq<u8>) -> u128;

/// The lower-case hexadecimal digit of a value below 16.
pub open spec fn hex_digit(d: nat) -> char {
    seq!['0', '1', '2', '3', '4', '5', '6', '7', '8', '9', 'a', 'b', 'c', 'd', 'e', 'f'][d as int]
}

/// Whether `c` is a lower-case hexadecimal digit.
pub open spec fn is_lower_hex(c: char) -> bool {
    ('0' <= c && c <= '9') || ('a' <= c && c <= 'f')
}

/// The last `count` hexadecimal digits of `value`, most significant first.
pub open spec fn hex_digits(value: nat, count: nat) -> Seq<char>
    decreases count,
{
    if count == 0 {
        Seq::empty()
    } else {
        hex_digits(value / 16, (count - 1) as nat).push(hex_digit(value % 16))
    }
}

/// The text that `uuid::Uuid`'s `Display` writes for the UUID `value`: its
/// 32 lower-case hexadecimal digits, most significant first, in groups of
/// 8, 4, 4, 4 and 12 joined by hyphens.
pub open spec fn uuid_text(value: u128) -> Seq<char> {
    let h = hex_digits(value as nat, 32);
    h.subrange(0, 8) + seq!['-'] + h.subrange(8, 12) + seq!['-'] + h.subrange(12, 16) + seq!['-']
        + h.subrange(16, 20) + seq!['-'] + h.subrange(20, 32)
}

/// Hexadecimal digits are `count` lower-case hexadecimal characters.
proof fn lemma_hex_digits(value: nat, count: nat)
    ensures
        hex_digits(value, count).len() == count,
        forall|i: int| 0 <= i < count ==> is_lower_hex(#[trigger] hex_digits(value, count)[i]),
    decreases count,
{
    if count > 0 {
        lemma_hex_digits(value / 16, (count - 1) as nat);
        let d = value % 16;
        assert(is_lower_hex(hex_digit(d)));
        let h = hex_digits(value, count);
        assert forall|i: int| 0 <= i < count implies is_lower_hex(#[trigger] h[i]) by {
            if i < count - 1 {
                assert(h[i] == hex_digits(value / 16, (count - 1) as nat)[i]);
            }
        }
    }
}

/// The text of a UUID begins with eight lower-case hexadecimal digits.
proof fn lemma_uuid_text_head(value: u128)
    ensures
        uuid_text(value).len() == 36,
        forall|i: int| 0 <= i < 8 ==> is_lower_hex(#[trigger] uuid_text(value)[i]),
{
    lemma_hex_digits(value as nat, 32);
    let h = hex_digits(value as nat, 32);
    assert forall|i: int| 0 <= i < 8 implies is_lower_hex(#[trigger] uuid_text(value)[i]) by {
        assert(uuid_text(value)[i] == h[i]);
    }
}

/// Calls `uuid::Uuid::parse_str`; the result is the parsed UUID, or `None`
/// when the crate rejects the text.
#[verifier::external_body]
fn parse_uuid(text: &str) -> (r: Option<u128>)
    ensures
        r == uuid_parsed(text@),
{
    match uuid::Uuid::parse_str(text) {
        Ok(u) => Some(u.as_u128()),
        Err(_) => None,
    }
}

/// Calls `uuid::Uuid::new_v5` with the OID namespace on `name`.
#[verifier::external_body]
fn uuid_from_name(name: &[u8]) -> (r: u128)
    ensures
        r == uuid_v5_oid(name@),
{
    uuid::Uuid::new_v5(&uuid::Uuid::NAMESPACE_OID, name).as_u128()
}

/// Whether `value` is a version-4 UUID of the RFC variant: the version
/// field holds 4 and the two variant bits are `10`.
pub open spec fn is_v4_uuid(value: u128) -> bool {
    (value >> 76u128) & 0xfu128 == 4u128 && (value >> 62u128) & 3u128 == 2u128
}

/// Calls `uuid::Uuid::new_v4`: a fresh random UUID.  Claimed: the crate
/// masks in the version and variant bits, so the value is a version-4 UUID
/// of the RFC variant; nothing is claimed of its random bits.
#[verifier::external_body]
fn random_uuid() -> (r: u128)
    ensures
        is_v4_uuid(r),
{
    uuid::Uuid::new_v4().as_u128()
}

/// Formats a UUID with `uuid::Uuid`'s `Display`.  Claimed: the crate writes
/// the big-endian lower-case hyphenated form `uuid_text`, which `parse_str`
/// reads back to the same UUID.
#[verifier::external_body]
fn format_uuid(value: u128) -> (r: String)
    ensures
        r@ == uuid_text(value),
        uuid_parsed(r@) == Some(value),
{
    uuid::Uuid::from_u128(value).to_string()
}

/// Kind marker for agent identifiers.
#[derive(Debug)]
pub struct AgentKind;

/// Kind marker for thread identifiers.
#[derive(Debug)]
pub struct ThreadKind;

/// Kind marker for run identifiers.
#[derive(Debug)]
pub struct RunKind;

/// Kind marker for message identifiers.
#[derive(Debug)]
pub struct MessageKind;

/// A UUID-based identifier that keeps the original text of non-UUID ids.
///
/// Two identifiers are equal when their UUIDs are equal.
#[derive(Debug)]
pub struct Identifier<K> {
    uuid: u128,
    raw: Option<String>,
    kind: PhantomData<K>,
}

/// An agent identifier.
pub type AgentId = Identifier<AgentKind>;

/// A thread identifier.
pub type ThreadId = Identifier<ThreadKind>;

/// A run identifier.
pub type RunId = Identifier<RunKind>;

/// A message identifier.
pub type MessageId = Identifier<MessageKind>;

/// The UUID an identifier made from `text` holds: the parsed UUID when `text`
/// is one, else the version-5 UUID of its UTF-8 bytes.
pub open spec fn uuid_for_text(text: Seq<char>) -> u128 {
    match uuid_parsed(text) {
        Some(u) => u,
        None => uuid_v5_oid(vstd::utf8::encode_utf8(text)),
    }
}

/// The original text an identifier made from `text` keeps: `None` when `text`
/// is a UUID, else `text` itself.
pub open spec fn raw_for_text(text: Seq<char>) -> Option<Seq<char>> {
    match uuid_parsed(text) {
        Some(_) => None,
        None => Some(text),
    }
}

/// Whether an identifier with UUID `uuid` and original text `raw` compares
/// equal to the string `other`.
pub open spec fn id_matches_text(uuid: u128, raw: Option<Seq<char>>, other: Seq<char>) -> bool {
    raw == Some(other) || uuid == uuid_for_text(other)
}

impl<K> Identifier<K> {
    /// The identifier's UUID.
    pub closed spec fn uuid_value(&self) -> u128 {
        self.uuid
    }

    /// The original text kept for a non-UUID identifier.
    pub closed spec fn raw_text(&self) -> Option<Seq<char>> {
        match &self.raw {
            Some(r) => Some(r@),
            None => None,
        }
    }

    /// The text the identifier is written as: the original text, or the
    /// hyphenated UUID.
    pub open spec fn text(&self) -> Seq<char> {
        match self.raw_text() {
            Some(r) => r,
            None => uuid_text(self.uuid_value()),
        }
    }

    /// The identifier keeps original text only for text that is no UUID, and
    /// then holds that text's version-5 UUID.
    pub open spec fn well_formed(&self) -> bool {
        match self.raw_text() {
            Some(r) => uuid_parsed(r) is None && self.uuid_value() == uuid_v5_oid(vstd::utf8::encode_utf8(r)),
            None => true,
        }
    }

    /// Creates a new random identifier.
    pub fn random() -> (r: Self)
        ensures
            r.raw_text() is None,
            r.well_formed(),
            is_v4_uuid(r.uuid_value()),
    {
        Identifier { uuid: random_uuid(), raw: None, kind: PhantomData }
    }

    /// Creates an identifier from a string.
    ///
    /// A UUID string is used directly; any other string is mapped to a
    /// deterministic version-5 UUID and kept for round-trip output.
    pub fn new(s: &str) -> (r: Self)
        ensures
            r.uuid_value() == uuid_for_text(s@),
            r.raw_text() == raw_for_text(s@),
            r.well_formed(),
    {
        match parse_uuid(s) {
            Some(u) => Identifier { uuid: u, raw: None, kind: PhantomData },
            None => {
                let u = uuid_from_name(s.as_bytes());
                Identifier { uuid: u, raw: Some(s.to_owned()), kind: PhantomData }
            },
        }
    }

    /// Creates an identifier from a UUID value.
    pub fn from_uuid(uuid: u128) -> (r: Self)
        ensures
            r.uuid_value() == uuid,
            r.raw_text() is None,
            r.well_formed(),
    {
        Identifier { uuid, raw: None, kind: PhantomData }
    }

    /// Returns the internal UUID (for a coerced id, the hash of the original).
    pub fn as_uuid(&self) -> (r: u128)
        ensures
            r == self.uuid_value(),
    {
        self.uuid
    }

    /// Whether this id was created from a non-UUID string.
    pub fn was_coerced(&self) -> (r: bool)
        ensures
            r == (self.raw_text() is Some),
    {
        self.raw.is_some()
    }

    /// The original string of a coerced id, or `None` for a UUID id.
    pub fn original_string(&self) -> (r: Option<&str>)
        ensures
            match r {
                Some(s) => self.raw_text() == Some(s@),
                None => self.raw_text() is None,
            },
    {
        match &self.raw {
            Some(s) => Some(s.as_str()),
            None => None,
        }
    }

    /// The text of the id: the original string if coerced, else the UUID.
    ///
    /// An id made from this text again is the same id: the same UUID and the
    /// same original text.
    pub fn to_string(&self) -> (r: String)
        ensures
            r@ == self.text(),
            self.well_formed() ==> uuid_for_text(r@) == self.uuid_value(),
            self.well_formed() ==> raw_for_text(r@) == self.raw_text(),
    {
        match &self.raw {
            Some(s) => s.clone(),
            None => format_uuid(self.uuid),
        }
    }

    /// Whether this id equals the string `other`: the same original text, or
    /// the same UUID as an id made from `other`.
    pub fn eq_str(&self, other: &str) -> (r: bool)
        ensures
            r == id_matches_text(self.uuid_value(), self.raw_text(), other@),
    {
        if let Some(raw) = &self.raw {
            if *raw == other.to_owned() {
                return true;
            }
        }
        match parse_uuid(other) {
            Some(u) => self.uuid == u,
            None => self.uuid == uuid_from_name(other.as_bytes()),
        }
    }
}

impl<K> Clone for Identifier<K> {
    fn clone(&self) -> (r: Self)
        ensures
            r == *self,
    {
        Identifier { uuid: self.uuid, raw: self.raw.clone(), kind: PhantomData }
    }
}

impl<K> PartialEq for Identifier<K> {
    fn eq(&self, other: &Self) -> (r: bool) {
        self.uuid == other.uuid
    }
}

impl<K> vstd::std_specs::cmp::PartialEqSpecImpl for Identifier<K> {
    open spec fn obeys_eq_spec() -> bool {
        true
    }

    open spec fn eq_spec(&self, other: &Self) -> bool {
        self.uuid_value() == other.uuid_value()
    }
}

impl<K> Eq for Identifier<K> {}

impl<K> PartialEq<str> for Identifier<K> {
    fn eq(&self, other: &str) -> (r: bool) {
        self.eq_str(other)
    }
}

impl<K> vstd::std_specs::cmp::PartialEqSpecImpl<str> for Identifier<K> {
    open spec fn obeys_eq_spec() -> bool {
        true
    }

    open spec fn eq_spec(&self, other: &str) -> bool {
        id_matches_text(self.uuid_value(), self.raw_text(), other@)
    }
}

impl<K> core::str::FromStr for Identifier<K> {
    type Err = core::convert::Infallible;

    fn from_str(s: &str) -> (r: Result<Self, Self::Err>)
        ensures
            r matches Ok(id) && id.uuid_value() == uuid_for_text(s@) && id.raw_text() == raw_for_text(s@),
    {
        Ok(Self::new(s))
    }
}

impl<K> core::hash::Hash for Identifier<K> {
    /// Hashes the UUID alone, consistently with equality.
    #[verifier::external_body]
    fn hash<H: core::hash::Hasher>(&self, state: &mut H) {
        self.uuid.hash(state)
    }
}

/// An identifier made from a string compares equal to that string.
pub proof fn lemma_id_matches_its_source(s: Seq<char>)
    ensures
        id_matches_text(uuid_for_text(s), raw_for_text(s), s),
{
}

/// An identifier made from a string that is no UUID is written back as that
/// very string.
pub proof fn lemma_coerced_text_preserved(s: Seq<char>)
    requires
        uuid_parsed(s) is None,
    ensures
        raw_for_text(s) == Some(s),
        match raw_for_text(s) {
            Some(r) => r,
            None => uuid_text(uuid_for_text(s)),
        } == s,
{
}

/// A tool call identifier: a provider-specific string (such as OpenAI's
/// `call_xxx`), used as given.
#[derive(Debug, Hash)]
pub struct ToolCallId(pub String);

impl ToolCallId {
    /// A fresh id of the form `call_` followed by the first eight characters
    /// of a random UUID.
    pub fn random() -> (r: Self)
        ensures
            r.0@.len() == 13,
            r.0@.subrange(0, 5) == "call_"@,
            forall|i: int| 5 <= i < 13 ==> is_lower_hex(#[trigger] r.0@[i]),
    {
        let value = random_uuid();
        let text = format_uuid(value);
        proof {
            lemma_uuid_text_head(value);
        }
        let head = text.as_str().substring_char(0, 8);
        let mut id = String::from_str("call_");
        proof {
            reveal_strlit("call_");
        }
        id.append(head);
        ToolCallId(id)
    }

    /// Creates a tool call id from a string, used directly.
    pub fn new(s: &str) -> (r: Self)
        ensures
            r.0@ == s@,
    {
        ToolCallId(s.to_owned())
    }

    /// The id as a string slice.
    pub fn as_str(&self) -> (r: &str)
        ensures
            r@ == self.0@,
    {
        self.0.as_str()
    }

    /// The id as an owned string.
    pub fn to_string(&self) -> (r: String)
        ensures
            r@ == self.0@,
    {
        self.0.clone()
    }
}

impl Clone for ToolCallId {
    fn clone(&self) -> (r: Self)
        ensures
            r == *self,
    {
        ToolCallId(self.0.clone())
    }
}

impl PartialEq for ToolCallId {
    fn eq(&self, other: &Self) -> (r: bool) {
        self.0 == other.0
    }
}

impl vstd::std_specs::cmp::PartialEqSpecImpl for ToolCallId {
    open spec fn obeys_eq_spec() -> bool {
        true
    }

    open spec fn eq_spec(&self, other: &Self) -> bool {
        self.0@ == other.0@
    }
}

impl Eq for ToolCallId {}

impl core::ops::Deref for ToolCallId {
    type Target = str;

    fn deref(&self) -> (r: &str)
        ensures
            r@ == self.0@,
    {
        self.0.as_str()
    }
}

} // verus!
