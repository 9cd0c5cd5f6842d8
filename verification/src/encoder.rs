//! Content negotiation and Server-Sent-Events framing of encoded events.
//!
//! An event reaches the encoder as its JSON text (or the serializer's error
//! message); the encoder checks its size and frames it as
//! `data: {json}\n\n`, one `data: ` line per line of the text.

use crate::error::{EncodeError, EncodeResult};
use crate::event::EventType;
use vstd::prelude::*;

verus! {

/// The largest accepted JSON text of one event, in bytes (1 MiB).
pub const MAX_EVENT_SIZE: usize = 1024 * 1024;

/// The byte of a line feed.
pub open spec fn line_feed() -> u8 {
    10u8
}

/// The bytes of `data: `.
pub open spec fn data_prefix() -> Seq<u8> {
    seq![100u8, 97u8, 116u8, 97u8, 58u8, 32u8]
}

/// A line without a carriage return just before its end.
pub open spec fn strip_cr(line: Seq<u8>) -> Seq<u8> {
    if line.len() > 0 && line.last() == 13u8 {
        line.drop_last()
    } else {
        line
    }
}

/// Scanning `s` from the left: the lines ended so far, and the text of the
/// line not yet ended.
pub open spec fn line_scan(s: Seq<u8>) -> (Seq<Seq<u8>>, Seq<u8>)
    decreases s.len(),
{
    if s.len() == 0 {
        (Seq::empty(), Seq::empty())
    } else {
        let (done, cur) = line_scan(s.drop_last());
        if s.last() == line_feed() {
            (done.push(strip_cr(cur)), Seq::empty())
        } else {
            (done, cur.push(s.last()))
        }
    }
}

/// The lines of a text as `str::lines` gives them: split at each line feed,
/// a carriage return just before a line feed dropped, and no empty line after
/// a final line feed.
pub open spec fn text_lines(s: Seq<u8>) -> Seq<Seq<u8>> {
    let (done, cur) = line_scan(s);
    if cur.len() == 0 {
        done
    } else {
        done.push(cur)
    }
}

/// One `data: ` line.
pub open spec fn data_line(line: Seq<u8>) -> Seq<u8> {
    data_prefix() + line + seq![line_feed()]
}

/// The `data: ` lines of a list of lines, in order.
pub open spec fn data_lines(lines: Seq<Seq<u8>>) -> Seq<u8>
    decreases lines.len(),
{
    if lines.len() == 0 {
        Seq::empty()
    } else {
        data_lines(lines.drop_last()) + data_line(lines.last())
    }
}

/// The SSE frame of a JSON text: `data: {json}\n\n`, and for a text with line
/// feeds one `data: ` line per line followed by an empty line.
pub open spec fn sse_frame(json: Seq<u8>) -> Seq<u8> {
    if json.contains(line_feed()) {
        data_lines(text_lines(json)) + seq![line_feed()]
    } else {
        data_prefix() + json + seq![line_feed(), line_feed()]
    }
}

/// The name of an event type on the wire.
pub open spec fn event_type_wire_name(t: EventType) -> Seq<char> {
    match t {
        EventType::TextMessageStart => "TEXT_MESSAGE_START"@,
        EventType::TextMessageContent => "TEXT_MESSAGE_CONTENT"@,
        EventType::TextMessageEnd => "TEXT_MESSAGE_END"@,
        EventType::TextMessageChunk => "TEXT_MESSAGE_CHUNK"@,
        EventType::ThinkingTextMessageStart => "THINKING_TEXT_MESSAGE_START"@,
        EventType::ThinkingTextMessageContent => "THINKING_TEXT_MESSAGE_CONTENT"@,
        EventType::ThinkingTextMessageEnd => "THINKING_TEXT_MESSAGE_END"@,
        EventType::ToolCallStart => "TOOL_CALL_START"@,
        EventType::ToolCallArgs => "TOOL_CALL_ARGS"@,
        EventType::ToolCallEnd => "TOOL_CALL_END"@,
        EventType::ToolCallChunk => "TOOL_CALL_CHUNK"@,
        EventType::ToolCallResult => "TOOL_CALL_RESULT"@,
        EventType::ThinkingStart => "THINKING_START"@,
        EventType::ThinkingEnd => "THINKING_END"@,
        EventType::StateSnapshot => "STATE_SNAPSHOT"@,
        EventType::StateDelta => "STATE_DELTA"@,
        EventType::MessagesSnapshot => "MESSAGES_SNAPSHOT"@,
        EventType::Raw => "RAW"@,
        EventType::Custom => "CUSTOM"@,
        EventType::RunStarted => "RUN_STARTED"@,
        EventType::RunFinished => "RUN_FINISHED"@,
        EventType::RunError => "RUN_ERROR"@,
        EventType::StepStarted => "STEP_STARTED"@,
        EventType::StepFinished => "STEP_FINISHED"@,
    }
}

/// The event type whose wire name is `s`, told apart by the name's length
/// and, where two names have the same length, by one of its letters.
pub open spec fn event_type_of_wire_name(s: Seq<char>) -> Option<EventType> {
    if s.len() == 3 {
        Some(EventType::Raw)
    } else if s.len() == 6 {
        Some(EventType::Custom)
    } else if s.len() == 9 {
        Some(EventType::RunError)
    } else if s.len() == 11 {
        if s[1] == 'T' { Some(EventType::StateDelta) } else { Some(EventType::RunStarted) }
    } else if s.len() == 12 {
        if s[1] == 'H' {
            Some(EventType::ThinkingEnd)
        } else if s[1] == 'U' {
            Some(EventType::RunFinished)
        } else {
            Some(EventType::StepStarted)
        }
    } else if s.len() == 13 {
        if s[1] == 'O' { Some(EventType::ToolCallEnd) } else { Some(EventType::StepFinished) }
    } else if s.len() == 14 {
        if s[1] == 'O' {
            Some(EventType::ToolCallArgs)
        } else if s[1] == 'H' {
            Some(EventType::ThinkingStart)
        } else {
            Some(EventType::StateSnapshot)
        }
    } else if s.len() == 15 {
        if s[10] == 'S' { Some(EventType::ToolCallStart) } else { Some(EventType::ToolCallChunk) }
    } else if s.len() == 16 {
        if s[1] == 'E' { Some(EventType::TextMessageEnd) } else { Some(EventType::ToolCallResult) }
    } else if s.len() == 17 {
        Some(EventType::MessagesSnapshot)
    } else if s.len() == 18 {
        if s[13] == 'S' { Some(EventType::TextMessageStart) } else { Some(EventType::TextMessageChunk) }
    } else if s.len() == 20 {
        Some(EventType::TextMessageContent)
    } else if s.len() == 25 {
        Some(EventType::ThinkingTextMessageEnd)
    } else if s.len() == 27 {
        Some(EventType::ThinkingTextMessageStart)
    } else if s.len() == 29 {
        Some(EventType::ThinkingTextMessageContent)
    } else {
        None
    }
}

/// An event type is read back from its wire name.
pub proof fn lemma_wire_name_reads_back(t: EventType)
    ensures
        event_type_of_wire_name(event_type_wire_name(t)) == Some(t),
{
    match t {
        EventType::TextMessageStart => reveal_strlit("TEXT_MESSAGE_START"),
        EventType::TextMessageContent => reveal_strlit("TEXT_MESSAGE_CONTENT"),
        EventType::TextMessageEnd => reveal_strlit("TEXT_MESSAGE_END"),
        EventType::TextMessageChunk => reveal_strlit("TEXT_MESSAGE_CHUNK"),
        EventType::ThinkingTextMessageStart => reveal_strlit("THINKING_TEXT_MESSAGE_START"),
        EventType::ThinkingTextMessageContent => reveal_strlit("THINKING_TEXT_MESSAGE_CONTENT"),
        EventType::ThinkingTextMessageEnd => reveal_strlit("THINKING_TEXT_MESSAGE_END"),
        EventType::ToolCallStart => reveal_strlit("TOOL_CALL_START"),
        EventType::ToolCallArgs => reveal_strlit("TOOL_CALL_ARGS"),
        EventType::ToolCallEnd => reveal_strlit("TOOL_CALL_END"),
        EventType::ToolCallChunk => reveal_strlit("TOOL_CALL_CHUNK"),
        EventType::ToolCallResult => reveal_strlit("TOOL_CALL_RESULT"),
        EventType::ThinkingStart => reveal_strlit("THINKING_START"),
        EventType::ThinkingEnd => reveal_strlit("THINKING_END"),
        EventType::StateSnapshot => reveal_strlit("STATE_SNAPSHOT"),
        EventType::StateDelta => reveal_strlit("STATE_DELTA"),
        EventType::MessagesSnapshot => reveal_strlit("MESSAGES_SNAPSHOT"),
        EventType::Raw => reveal_strlit("RAW"),
        EventType::Custom => reveal_strlit("CUSTOM"),
        EventType::RunStarted => reveal_strlit("RUN_STARTED"),
        EventType::RunFinished => reveal_strlit("RUN_FINISHED"),
        EventType::RunError => reveal_strlit("RUN_ERROR"),
        EventType::StepStarted => reveal_strlit("STEP_STARTED"),
        EventType::StepFinished => reveal_strlit("STEP_FINISHED"),
    }
}

/// Distinct event types have distinct names on the wire.
pub proof fn lemma_wire_names_distinct(a: EventType, b: EventType)
    ensures
        a != b ==> event_type_wire_name(a) != event_type_wire_name(b),
{
    lemma_wire_name_reads_back(a);
    lemma_wire_name_reads_back(b);
}

/// The name of an event type on the wire, for error messages.
pub fn event_type_str(t: EventType) -> (r: &'static str)
    ensures
        r@ == event_type_wire_name(t),
{
    match t {
        EventType::TextMessageStart => "TEXT_MESSAGE_START",
        EventType::TextMessageContent => "TEXT_MESSAGE_CONTENT",
        EventType::TextMessageEnd => "TEXT_MESSAGE_END",
        EventType::TextMessageChunk => "TEXT_MESSAGE_CHUNK",
        EventType::ThinkingTextMessageStart => "THINKING_TEXT_MESSAGE_START",
        EventType::ThinkingTextMessageContent => "THINKING_TEXT_MESSAGE_CONTENT",
        EventType::ThinkingTextMessageEnd => "THINKING_TEXT_MESSAGE_END",
        EventType::ToolCallStart => "TOOL_CALL_START",
        EventType::ToolCallArgs => "TOOL_CALL_ARGS",
        EventType::ToolCallEnd => "TOOL_CALL_END",
        EventType::ToolCallChunk => "TOOL_CALL_CHUNK",
        EventType::ToolCallResult => "TOOL_CALL_RESULT",
        EventType::ThinkingStart => "THINKING_START",
        EventType::ThinkingEnd => "THINKING_END",
        EventType::StateSnapshot => "STATE_SNAPSHOT",
        EventType::StateDelta => "STATE_DELTA",
        EventType::MessagesSnapshot => "MESSAGES_SNAPSHOT",
        EventType::Raw => "RAW",
        EventType::Custom => "CUSTOM",
        EventType::RunStarted => "RUN_STARTED",
        EventType::RunFinished => "RUN_FINISHED",
        EventType::RunError => "RUN_ERROR",
        EventType::StepStarted => "STEP_STARTED",
        EventType::StepFinished => "STEP_FINISHED",
    }
}

/// The UTF-8 bytes of a JSON text.
pub open spec fn json_bytes(text: String) -> Seq<u8> {
    vstd::utf8::encode_utf8(text@)
}

/// Whether an event encodes: it serialized, within the size limit.
pub open spec fn encodes(json: Result<String, String>) -> bool {
    match json {
        Ok(text) => json_bytes(text).len() <= MAX_EVENT_SIZE,
        Err(_) => false,
    }
}

/// The SSE frame of a serialized event.
pub open spec fn frame_of(json: Result<String, String>) -> Seq<u8> {
    match json {
        Ok(text) => sse_frame(json_bytes(text)),
        Err(_) => Seq::empty(),
    }
}

/// Whether `e` is the error that encoding an event of type `t` gives: the
/// serializer's error as a JSON error, or a text over the limit as too large.
pub open spec fn encode_error_for(e: EncodeError, t: EventType, json: Result<String, String>) -> bool {
    match json {
        Err(source) => e matches EncodeError::Json { event_type, source: s } && event_type@
            == event_type_wire_name(t) && s == source,
        Ok(text) => e matches EncodeError::EventTooLarge { size, max } && size == json_bytes(text).len()
            && max == MAX_EVENT_SIZE,
    }
}

/// Appends `data: `.
fn push_data_prefix(out: &mut Vec<u8>)
    ensures
        final(out)@ == old(out)@ + data_prefix(),
{
    out.push(100u8);
    out.push(97u8);
    out.push(116u8);
    out.push(97u8);
    out.push(58u8);
    out.push(32u8);
    assert(out@ =~= old(out)@ + data_prefix());
}

/// Whether the bytes hold a line feed.
fn has_line_feed(bytes: &[u8]) -> (r: bool)
    ensures
        r == bytes@.contains(line_feed()),
{
    let mut i: usize = 0;
    while i < bytes.len()
        invariant
            i <= bytes@.len(),
            forall|j: int| 0 <= j < i ==> bytes@[j] != line_feed(),
        decreases bytes.len() - i,
    {
        if bytes[i] == 10u8 {
            assert(bytes@[i as int] == line_feed());
            return true;
        }
        i = i + 1;
    }
    false
}

/// Frames a JSON text as an SSE event.
pub fn frame_sse(json: &str) -> (r: Vec<u8>)
    ensures
        r@ == sse_frame(vstd::utf8::encode_utf8(json@)),
{
    let bytes = json.as_bytes();
    let mut out: Vec<u8> = Vec::new();
    if has_line_feed(bytes) {
        let mut cur: Vec<u8> = Vec::new();
        let mut i: usize = 0;
        assert(bytes@.take(0) =~= Seq::<u8>::empty());
        while i < bytes.len()
            invariant
                i <= bytes@.len(),
                line_scan(bytes@.take(i as int)).1 == cur@,
                data_lines(line_scan(bytes@.take(i as int)).0) == out@,
            decreases bytes.len() - i,
        {
            let b = bytes[i];
            let ghost before = bytes@.take(i as int);
            let ghost done = line_scan(before).0;
            assert(bytes@.take(i + 1).drop_last() =~= before);
            assert(bytes@.take(i + 1).last() == b);
            if b == 10u8 {
                let ghost stripped = strip_cr(cur@);
                if cur.len() > 0 && cur[cur.len() - 1] == 13u8 {
                    cur.pop();
                }
                assert(cur@ == stripped);
                push_data_prefix(&mut out);
                out.append(&mut cur);
                out.push(10u8);
                assert(done.push(stripped).drop_last() =~= done);
                assert(out@ =~= data_lines(done) + data_line(stripped));
            } else {
                cur.push(b);
            }
            i = i + 1;
        }
        assert(bytes@.take(bytes@.len() as int) =~= bytes@);
        let ghost done = line_scan(bytes@).0;
        if cur.len() > 0 {
            let ghost last = cur@;
            push_data_prefix(&mut out);
            out.append(&mut cur);
            out.push(10u8);
            assert(done.push(last).drop_last() =~= done);
            assert(out@ =~= data_lines(done) + data_line(last));
        }
        out.push(10u8);
    } else {
        push_data_prefix(&mut out);
        let mut i: usize = 0;
        while i < bytes.len()
            invariant
                i <= bytes@.len(),
                out@ == data_prefix() + bytes@.take(i as int),
            decreases bytes.len() - i,
        {
            out.push(bytes[i]);
            assert(bytes@.take(i + 1) =~= bytes@.take(i as int).push(bytes@[i as int]));
            assert(out@ =~= data_prefix() + bytes@.take(i + 1));
            i = i + 1;
        }
        assert(bytes@.take(bytes@.len() as int) =~= bytes@);
        out.push(10u8);
        out.push(10u8);
        assert(out@ =~= data_prefix() + bytes@ + seq![line_feed(), line_feed()]);
    }
    out
}

/// Encodes one event as SSE from its serialized JSON text, or the
/// serializer's error message.
pub fn encode_sse(event_type: EventType, json: Result<String, String>) -> (r: EncodeResult<Vec<u8>>)
    ensures
        r is Ok <==> encodes(json),
        r matches Ok(v) ==> v@ == frame_of(json),
        r matches Err(e) ==> encode_error_for(e, event_type, json),
{
    match json {
        Err(source) => Err(EncodeError::Json { event_type: event_type_str(event_type), source }),
        Ok(text) => {
            let s = text.as_str();
            let size = s.as_bytes().len();
            if size > MAX_EVENT_SIZE {
                Err(EncodeError::EventTooLarge { size, max: MAX_EVENT_SIZE })
            } else {
                Ok(frame_sse(s))
            }
        },
    }
}

/// The frames of a batch of serialized events, concatenated in order.
pub open spec fn frames_of(items: Seq<(EventType, Result<String, String>)>) -> Seq<u8>
    decreases items.len(),
{
    if items.len() == 0 {
        Seq::empty()
    } else {
        frames_of(items.drop_last()) + frame_of(items.last().1)
    }
}

/// Content types the encoder produces.
#[derive(Debug, Clone, Copy, PartialEq, Eq, Hash, Structural)]
pub enum ContentType {
    /// Server-Sent Events (`text/event-stream`), JSON framed as SSE.
    Sse,
}

impl Default for ContentType {
    fn default() -> (r: Self)
        ensures
            r == ContentType::Sse,
    {
        ContentType::Sse
    }
}

impl ContentType {
    /// The content type to answer an `Accept` header with: SSE, whatever the
    /// header asks for, as no other format is built in.
    pub fn from_accept(accept: &str) -> (r: Self)
        ensures
            r == ContentType::Sse,
    {
        ContentType::Sse
    }

    /// The MIME type, for the `Content-Type` response header.
    pub fn as_str(&self) -> (r: &'static str)
        ensures
            r@ == "text/event-stream"@,
    {
        match self {
            ContentType::Sse => "text/event-stream",
        }
    }

    /// The MIME type as an owned string, as the type is displayed.
    pub fn to_string(&self) -> (r: String)
        ensures
            r@ == self.as_str_spec(),
    {
        self.as_str().to_owned()
    }

    /// The MIME type of a content type.
    pub open spec fn as_str_spec(&self) -> Seq<char> {
        match self {
            ContentType::Sse => "text/event-stream"@,
        }
    }

    /// Whether the encoding is binary.
    pub fn is_binary(&self) -> (r: bool)
        ensures
            r == false,
    {
        match self {
            ContentType::Sse => false,
        }
    }
}

/// Event encoder for one negotiated content type.
#[derive(Debug, Clone, Copy)]
pub struct EventEncoder {
    content_type: ContentType,
}

impl Default for EventEncoder {
    fn default() -> (r: Self)
        ensures
            r.spec_content_type() == ContentType::Sse,
    {
        EventEncoder::sse()
    }
}

impl EventEncoder {
    /// The negotiated content type.
    pub closed spec fn spec_content_type(&self) -> ContentType {
        self.content_type
    }

    /// An encoder for the content type an `Accept` header asks for.
    pub fn from_accept(accept: &str) -> (r: Self)
        ensures
            r.spec_content_type() == ContentType::Sse,
    {
        EventEncoder { content_type: ContentType::from_accept(accept) }
    }

    /// An SSE encoder.
    pub fn sse() -> (r: Self)
        ensures
            r.spec_content_type() == ContentType::Sse,
    {
        EventEncoder { content_type: ContentType::Sse }
    }

    /// The MIME type for the `Content-Type` response header.
    pub fn content_type(&self) -> (r: &'static str)
        ensures
            r@ == "text/event-stream"@,
    {
        self.content_type.as_str()
    }

    /// The negotiated content type.
    pub fn content_type_enum(&self) -> (r: ContentType)
        ensures
            r == self.spec_content_type(),
    {
        self.content_type
    }

    /// Encodes one event from its serialized JSON text, or the serializer's
    /// error message.
    pub fn encode(&self, event_type: EventType, json: Result<String, String>) -> (r: EncodeResult<Vec<u8>>)
        ensures
            r is Ok <==> encodes(json),
            r matches Ok(v) ==> v@ == frame_of(json),
            r matches Err(e) ==> encode_error_for(e, event_type, json),
    {
        match self.content_type {
            ContentType::Sse => encode_sse(event_type, json),
        }
    }

    /// Encodes a batch of events, concatenating their frames; the first
    /// event that does not encode gives the error.
    pub fn encode_batch(&self, items: Vec<(EventType, Result<String, String>)>) -> (r: EncodeResult<Vec<u8>>)
        ensures
            r is Ok <==> forall|i: int| 0 <= i < items@.len() ==> encodes(#[trigger] items@[i].1),
            r matches Ok(v) ==> v@ == frames_of(items@),
            r matches Err(e) ==> exists|k: int|
                0 <= k < items@.len() && !encodes(#[trigger] items@[k].1) && (forall|j: int|
                    0 <= j < k ==> encodes(#[trigger] items@[j].1)) && encode_error_for(e, items@[k].0, items@[k].1),
    {
        let ghost all = items@;
        let n = items.len();
        let mut rest = items;
        let mut backwards: Vec<(EventType, Result<String, String>)> = Vec::new();
        while rest.len() > 0
            invariant
                rest@.len() + backwards@.len() == all.len(),
                rest@ == all.take(rest@.len() as int),
                forall|j: int| 0 <= j < backwards@.len() ==> #[trigger] backwards@[j] == all[all.len() - 1 - j],
            decreases rest@.len(),
        {
            let item = rest.pop().unwrap();
            backwards.push(item);
            assert(rest@ =~= all.take(rest@.len() as int));
        }
        let mut buffer: Vec<u8> = Vec::new();
        let mut k: usize = 0;
        while backwards.len() > 0
            invariant
                k + backwards@.len() == all.len(),
                all.len() == n,
                all == items@,
                forall|j: int| 0 <= j < backwards@.len() ==> #[trigger] backwards@[j] == all[all.len() - 1 - j],
                forall|j: int| 0 <= j < k ==> encodes(#[trigger] all[j].1),
                buffer@ == frames_of(all.take(k as int)),
            decreases backwards@.len(),
        {
            let ghost before = all.take(k as int);
            let item = backwards.pop().unwrap();
            assert(item == all[k as int]);
            let (event_type, json) = item;
            match self.encode(event_type, json) {
                Ok(frame) => {
                    let mut frame = frame;
                    buffer.append(&mut frame);
                    assert(all.take(k + 1).drop_last() =~= before);
                    k = k + 1;
                },
                Err(e) => {
                    assert(!encodes(all[k as int].1));
                    assert(encode_error_for(e, all[k as int].0, all[k as int].1));
                    return Err(e);
                },
            }
        }
        assert(all.take(all.len() as int) =~= all);
        Ok(buffer)
    }
}

/// A serialized event within the size limit and without a line feed
/// encodes as `data: `, the text, and two line feeds.
pub proof fn lemma_single_line_frame(text: String)
    requires
        json_bytes(text).len() <= MAX_EVENT_SIZE,
        !json_bytes(text).contains(line_feed()),
    ensures
        encodes(Ok::<String, String>(text)),
        frame_of(Ok::<String, String>(text)) == data_prefix() + json_bytes(text) + seq![line_feed(), line_feed()],
{
}

/// The frames of two batches one after the other are the frames of the
/// first batch followed by those of the second.
pub proof fn lemma_frames_of_concatenation(
    a: Seq<(EventType, Result<String, String>)>,
    b: Seq<(EventType, Result<String, String>)>,
)
    ensures
        frames_of(a + b) == frames_of(a) + frames_of(b),
    decreases b.len(),
{
    if b.len() == 0 {
        assert(a + b =~= a);
        assert(frames_of(b) =~= Seq::<u8>::empty());
        assert(frames_of(a) + frames_of(b) =~= frames_of(a));
    } else {
        lemma_frames_of_concatenation(a, b.drop_last());
        assert((a + b).drop_last() =~= a + b.drop_last());
        assert((a + b).last() == b.last());
        assert(frames_of(a) + frames_of(b) =~= frames_of(a) + frames_of(b.drop_last()) + frame_of(b.last().1));
    }
}

/// A text with a line feed has at least one ended line.
proof fn lemma_line_feed_ends_a_line(s: Seq<u8>)
    requires
        s.contains(line_feed()),
    ensures
        line_scan(s).0.len() >= 1,
    decreases s.len(),
{
    if s.last() != line_feed() {
        let k = choose|k: int| 0 <= k < s.len() && s[k] == line_feed();
        assert(s.drop_last()[k] == line_feed());
        lemma_line_feed_ends_a_line(s.drop_last());
    }
}

/// The `data: ` lines of at least one line start with `data: ` and end with
/// a line feed.
proof fn lemma_data_lines_shape(lines: Seq<Seq<u8>>)
    requires
        lines.len() >= 1,
    ensures
        data_lines(lines).len() >= 7,
        data_lines(lines).take(6) == data_prefix(),
        data_lines(lines).last() == line_feed(),
    decreases lines.len(),
{
    let a = data_lines(lines.drop_last());
    let b = data_line(lines.last());
    if lines.len() == 1 {
        assert(a =~= Seq::<u8>::empty());
        assert((a + b).take(6) =~= data_prefix());
    } else {
        lemma_data_lines_shape(lines.drop_last());
        assert((a + b).take(6) =~= a.take(6));
    }
}

/// Every SSE frame starts with `data: ` and ends with an empty line.
pub proof fn lemma_sse_frame_shape(json: Seq<u8>)
    ensures
        sse_frame(json).len() >= 8,
        sse_frame(json).take(6) == data_prefix(),
        sse_frame(json).subrange(sse_frame(json).len() - 2, sse_frame(json).len() as int) == seq![
            line_feed(),
            line_feed(),
        ],
{
    let f = sse_frame(json);
    if json.contains(line_feed()) {
        lemma_line_feed_ends_a_line(json);
        let lines = text_lines(json);
        assert(lines.len() >= 1);
        lemma_data_lines_shape(lines);
        let d = data_lines(lines);
        assert(f =~= d + seq![line_feed()]);
        assert(f.take(6) =~= d.take(6));
        assert(f.subrange(f.len() - 2, f.len() as int) =~= seq![line_feed(), line_feed()]);
    } else {
        assert(f.take(6) =~= data_prefix());
        assert(f.subrange(f.len() - 2, f.len() as int) =~= seq![line_feed(), line_feed()]);
    }
}

} // verus!
