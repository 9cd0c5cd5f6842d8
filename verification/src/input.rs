//! Agent run input, tools, context, multimodal input content and
//! human-in-the-loop interrupts.

use crate::ids::{RunId, ThreadId};
use crate::json::{clone_opt_json, JsonValue};
use crate::message::{clone_messages, clone_opt_string, same_messages, Message};
use vstd::prelude::*;

verus! {

/// A tool the agent may call: a name, a description and a JSON Schema for
/// its parameters.
#[derive(Debug, PartialEq)]
pub struct Tool {
    pub name: String,
    pub description: String,
    pub parameters: JsonValue,
}

impl Clone for Tool {
    fn clone(&self) -> (r: Self)
        ensures
            r == *self,
    {
        Tool {
            name: self.name.clone(),
            description: self.description.clone(),
            parameters: self.parameters.clone(),
        }
    }
}

/// Clones a list element by element.
pub(crate) fn clone_tools(v: &Vec<Tool>) -> (r: Vec<Tool>)
    ensures
        r@ == v@,
{
    let mut out: Vec<Tool> = Vec::new();
    let mut i: usize = 0;
    while i < v.len()
        invariant
            i <= v.len(),
            out@ == v@.subrange(0, i as int),
        decreases v.len() - i,
    {
        out.push(v[i].clone());
        i = i + 1;
    }
    assert(out@ =~= v@);
    out
}

impl Tool {
    /// A tool with the given name, description and parameter schema.
    pub fn new(name: String, description: String, parameters: JsonValue) -> (r: Self)
        ensures
            r.name == name,
            r.description == description,
            r.parameters == parameters,
    {
        Tool { name, description, parameters }
    }
}

/// A piece of context for the agent: a description and a value.
#[derive(Debug, PartialEq)]
pub struct Context {
    pub description: String,
    pub value: String,
}

impl Clone for Context {
    fn clone(&self) -> (r: Self)
        ensures
            r == *self,
    {
        Context { description: self.description.clone(), value: self.value.clone() }
    }
}

/// Clones a list element by element.
fn clone_contexts(v: &Vec<Context>) -> (r: Vec<Context>)
    ensures
        r@ == v@,
{
    let mut out: Vec<Context> = Vec::new();
    let mut i: usize = 0;
    while i < v.len()
        invariant
            i <= v.len(),
            out@ == v@.subrange(0, i as int),
        decreases v.len() - i,
    {
        out.push(v[i].clone());
        i = i + 1;
    }
    assert(out@ =~= v@);
    out
}

impl Context {
    /// A context item with the given description and value.
    pub fn new(description: String, value: String) -> (r: Self)
        ensures
            r.description == description,
            r.value == value,
    {
        Context { description, value }
    }
}

/// Input for running an agent.
#[derive(Debug, PartialEq)]
pub struct RunAgentInput<StateT = JsonValue, FwdPropsT = JsonValue> {
    pub thread_id: ThreadId,
    pub run_id: RunId,
    pub parent_run_id: Option<String>,
    pub state: StateT,
    pub messages: Vec<Message>,
    pub tools: Vec<Tool>,
    pub context: Vec<Context>,
    pub forwarded_props: FwdPropsT,
    pub resume: Option<Vec<ResumeEntry>>,
}

impl<StateT: Clone, FwdPropsT: Clone> Clone for RunAgentInput<StateT, FwdPropsT> {
    fn clone(&self) -> (r: Self)
        ensures
            r.thread_id == self.thread_id,
            r.run_id == self.run_id,
            r.parent_run_id == self.parent_run_id,
            cloned(self.state, r.state),
            same_messages(r.messages@, self.messages@),
            r.tools@ == self.tools@,
            r.context@ == self.context@,
            cloned(self.forwarded_props, r.forwarded_props),
            match (r.resume, self.resume) {
                (Some(a), Some(b)) => a@ == b@,
                (None, None) => true,
                _ => false,
            },
    {
        RunAgentInput {
            thread_id: self.thread_id.clone(),
            run_id: self.run_id.clone(),
            parent_run_id: clone_opt_string(&self.parent_run_id),
            state: self.state.clone(),
            messages: clone_messages(&self.messages),
            tools: clone_tools(&self.tools),
            context: clone_contexts(&self.context),
            forwarded_props: self.forwarded_props.clone(),
            resume: match &self.resume {
                Some(entries) => Some(clone_resume_entries(entries)),
                None => None,
            },
        }
    }
}

impl<StateT, FwdPropsT> RunAgentInput<StateT, FwdPropsT> {
    /// A run input with no parent run and no resume entries.
    pub fn new(
        thread_id: ThreadId,
        run_id: RunId,
        state: StateT,
        messages: Vec<Message>,
        tools: Vec<Tool>,
        context: Vec<Context>,
        forwarded_props: FwdPropsT,
    ) -> (r: Self)
        ensures
            r.thread_id == thread_id,
            r.run_id == run_id,
            r.parent_run_id is None,
            r.state == state,
            r.messages == messages,
            r.tools == tools,
            r.context == context,
            r.forwarded_props == forwarded_props,
            r.resume is None,
    {
        RunAgentInput {
            thread_id,
            run_id,
            parent_run_id: None,
            state,
            messages,
            tools,
            context,
            forwarded_props,
            resume: None,
        }
    }
}

/// Source of multimodal input content: inline data or a URL.
#[derive(Debug, PartialEq)]
pub enum InputContentSource {
    /// Base64-encoded inline data.
    Data { value: String, mime_type: String },
    /// A remote URL.
    Url { value: String, mime_type: Option<String> },
}

impl Clone for InputContentSource {
    fn clone(&self) -> (r: Self)
        ensures
            r == *self,
    {
        match self {
            InputContentSource::Data { value, mime_type } => InputContentSource::Data {
                value: value.clone(),
                mime_type: mime_type.clone(),
            },
            InputContentSource::Url { value, mime_type } => InputContentSource::Url {
                value: value.clone(),
                mime_type: clone_opt_string(mime_type),
            },
        }
    }
}

/// A text content part.
#[derive(Debug, PartialEq)]
pub struct TextInputContent {
    pub content_type: String,
    pub text: String,
}

impl Clone for TextInputContent {
    fn clone(&self) -> (r: Self)
        ensures
            r == *self,
    {
        TextInputContent { content_type: self.content_type.clone(), text: self.text.clone() }
    }
}

impl TextInputContent {
    /// A text part with the given text.
    pub fn new(text: String) -> (r: Self)
        ensures
            r.content_type@ == "text"@,
            r.text == text,
    {
        TextInputContent { content_type: String::from_str("text"), text }
    }
}

/// An image content part.
#[derive(Debug, PartialEq)]
pub struct ImageInputContent {
    pub content_type: String,
    pub source: InputContentSource,
    pub metadata: Option<JsonValue>,
}

impl Clone for ImageInputContent {
    fn clone(&self) -> (r: Self)
        ensures
            r == *self,
    {
        ImageInputContent {
            content_type: self.content_type.clone(),
            source: self.source.clone(),
            metadata: clone_opt_json(&self.metadata),
        }
    }
}

impl ImageInputContent {
    /// An image part from the given source.
    pub fn new(source: InputContentSource) -> (r: Self)
        ensures
            r.content_type@ == "image"@,
            r.source == source,
            r.metadata is None,
    {
        ImageInputContent { content_type: String::from_str("image"), source, metadata: None }
    }
}

/// An audio content part.
#[derive(Debug, PartialEq)]
pub struct AudioInputContent {
    pub content_type: String,
    pub source: InputContentSource,
    pub metadata: Option<JsonValue>,
}

impl Clone for AudioInputContent {
    fn clone(&self) -> (r: Self)
        ensures
            r == *self,
    {
        AudioInputContent {
            content_type: self.content_type.clone(),
            source: self.source.clone(),
            metadata: clone_opt_json(&self.metadata),
        }
    }
}

impl AudioInputContent {
    /// An audio part from the given source.
    pub fn new(source: InputContentSource) -> (r: Self)
        ensures
            r.content_type@ == "audio"@,
            r.source == source,
            r.metadata is None,
    {
        AudioInputContent { content_type: String::from_str("audio"), source, metadata: None }
    }
}

/// A video content part.
#[derive(Debug, PartialEq)]
pub struct VideoInputContent {
    pub content_type: String,
    pub source: InputContentSource,
    pub metadata: Option<JsonValue>,
}

impl Clone for VideoInputContent {
    fn clone(&self) -> (r: Self)
        ensures
            r == *self,
    {
        VideoInputContent {
            content_type: self.content_type.clone(),
            source: self.source.clone(),
            metadata: clone_opt_json(&self.metadata),
        }
    }
}

impl VideoInputContent {
    /// A video part from the given source.
    pub fn new(source: InputContentSource) -> (r: Self)
        ensures
            r.content_type@ == "video"@,
            r.source == source,
            r.metadata is None,
    {
        VideoInputContent { content_type: String::from_str("video"), source, metadata: None }
    }
}

/// A document content part.
#[derive(Debug, PartialEq)]
pub struct DocumentInputContent {
    pub content_type: String,
    pub source: InputContentSource,
    pub metadata: Option<JsonValue>,
}

impl Clone for DocumentInputContent {
    fn clone(&self) -> (r: Self)
        ensures
            r == *self,
    {
        DocumentInputContent {
            content_type: self.content_type.clone(),
            source: self.source.clone(),
            metadata: clone_opt_json(&self.metadata),
        }
    }
}

impl DocumentInputContent {
    /// A document part from the given source.
    pub fn new(source: InputContentSource) -> (r: Self)
        ensures
            r.content_type@ == "document"@,
            r.source == source,
            r.metadata is None,
    {
        DocumentInputContent { content_type: String::from_str("document"), source, metadata: None }
    }
}

/// Legacy binary input content.
#[derive(Debug, PartialEq)]
pub struct BinaryInputContent {
    pub content_type: String,
    pub mime_type: String,
    pub id: Option<String>,
    pub url: Option<String>,
    pub data: Option<String>,
    pub filename: Option<String>,
}

impl Clone for BinaryInputContent {
    fn clone(&self) -> (r: Self)
        ensures
            r == *self,
    {
        BinaryInputContent {
            content_type: self.content_type.clone(),
            mime_type: self.mime_type.clone(),
            id: clone_opt_string(&self.id),
            url: clone_opt_string(&self.url),
            data: clone_opt_string(&self.data),
            filename: clone_opt_string(&self.filename),
        }
    }
}

impl BinaryInputContent {
    /// A binary part of the given MIME type with no id, URL, data or name.
    pub fn new(mime_type: String) -> (r: Self)
        ensures
            r.content_type@ == "binary"@,
            r.mime_type == mime_type,
            r.id is None,
            r.url is None,
            r.data is None,
            r.filename is None,
    {
        BinaryInputContent {
            content_type: String::from_str("binary"),
            mime_type,
            id: None,
            url: None,
            data: None,
            filename: None,
        }
    }
}

/// A multimodal input content part, discriminated by type.
#[derive(Debug, PartialEq)]
pub enum InputContent {
    Text { text: String },
    Image { source: InputContentSource, metadata: Option<JsonValue> },
    Audio { source: InputContentSource, metadata: Option<JsonValue> },
    Video { source: InputContentSource, metadata: Option<JsonValue> },
    Document { source: InputContentSource, metadata: Option<JsonValue> },
    Binary {
        mime_type: String,
        id: Option<String>,
        url: Option<String>,
        data: Option<String>,
        filename: Option<String>,
    },
}

impl Clone for InputContent {
    fn clone(&self) -> (r: Self)
        ensures
            r == *self,
    {
        match self {
            InputContent::Text { text } => InputContent::Text { text: text.clone() },
            InputContent::Image { source, metadata } => InputContent::Image {
                source: source.clone(),
                metadata: clone_opt_json(metadata),
            },
            InputContent::Audio { source, metadata } => InputContent::Audio {
                source: source.clone(),
                metadata: clone_opt_json(metadata),
            },
            InputContent::Video { source, metadata } => InputContent::Video {
                source: source.clone(),
                metadata: clone_opt_json(metadata),
            },
            InputContent::Document { source, metadata } => InputContent::Document {
                source: source.clone(),
                metadata: clone_opt_json(metadata),
            },
            InputContent::Binary { mime_type, id, url, data, filename } => InputContent::Binary {
                mime_type: mime_type.clone(),
                id: clone_opt_string(id),
                url: clone_opt_string(url),
                data: clone_opt_string(data),
                filename: clone_opt_string(filename),
            },
        }
    }
}

/// Clones a list element by element.
fn clone_input_contents(v: &Vec<InputContent>) -> (r: Vec<InputContent>)
    ensures
        r@ == v@,
{
    let mut out: Vec<InputContent> = Vec::new();
    let mut i: usize = 0;
    while i < v.len()
        invariant
            i <= v.len(),
            out@ == v@.subrange(0, i as int),
        decreases v.len() - i,
    {
        out.push(v[i].clone());
        i = i + 1;
    }
    assert(out@ =~= v@);
    out
}

/// Message content: plain text or multimodal parts.
#[derive(Debug, PartialEq)]
pub enum MessageContent {
    Text(String),
    Parts(Vec<InputContent>),
}

impl Clone for MessageContent {
    fn clone(&self) -> (r: Self)
        ensures
            match (*self, r) {
                (MessageContent::Text(a), MessageContent::Text(b)) => a == b,
                (MessageContent::Parts(a), MessageContent::Parts(b)) => a@ == b@,
                _ => false,
            },
    {
        match self {
            MessageContent::Text(t) => MessageContent::Text(t.clone()),
            MessageContent::Parts(p) => MessageContent::Parts(clone_input_contents(p)),
        }
    }
}

/// A human-in-the-loop pause point: the agent needs user input to go on.
#[derive(Debug, PartialEq)]
pub struct Interrupt {
    pub id: String,
    pub reason: String,
    pub message: Option<String>,
    pub tool_call_id: Option<String>,
    pub response_schema: Option<JsonValue>,
    pub expires_at: Option<String>,
    pub metadata: Option<JsonValue>,
}

impl Clone for Interrupt {
    fn clone(&self) -> (r: Self)
        ensures
            r == *self,
    {
        Interrupt {
            id: self.id.clone(),
            reason: self.reason.clone(),
            message: clone_opt_string(&self.message),
            tool_call_id: clone_opt_string(&self.tool_call_id),
            response_schema: clone_opt_json(&self.response_schema),
            expires_at: clone_opt_string(&self.expires_at),
            metadata: clone_opt_json(&self.metadata),
        }
    }
}

impl Interrupt {
    /// An interrupt with the given id and reason and no other details.
    pub fn new(id: String, reason: String) -> (r: Self)
        ensures
            r.id == id,
            r.reason == reason,
            r.message is None,
            r.tool_call_id is None,
            r.response_schema is None,
            r.expires_at is None,
            r.metadata is None,
    {
        Interrupt {
            id,
            reason,
            message: None,
            tool_call_id: None,
            response_schema: None,
            expires_at: None,
            metadata: None,
        }
    }
}

/// Status of a resume entry.
#[derive(Debug, Clone, Copy, PartialEq, Eq, Structural)]
pub enum ResumeStatus {
    Resolved,
    Cancelled,
}

/// The user's response to an interrupt.
#[derive(Debug, PartialEq)]
pub struct ResumeEntry {
    pub interrupt_id: String,
    pub status: ResumeStatus,
    pub payload: Option<JsonValue>,
}

impl Clone for ResumeEntry {
    fn clone(&self) -> (r: Self)
        ensures
            r == *self,
    {
        ResumeEntry {
            interrupt_id: self.interrupt_id.clone(),
            status: self.status,
            payload: clone_opt_json(&self.payload),
        }
    }
}

/// Clones a list element by element.
fn clone_resume_entries(v: &Vec<ResumeEntry>) -> (r: Vec<ResumeEntry>)
    ensures
        r@ == v@,
{
    let mut out: Vec<ResumeEntry> = Vec::new();
    let mut i: usize = 0;
    while i < v.len()
        invariant
            i <= v.len(),
            out@ == v@.subrange(0, i as int),
        decreases v.len() - i,
    {
        out.push(v[i].clone());
        i = i + 1;
    }
    assert(out@ =~= v@);
    out
}

impl ResumeEntry {
    /// A resume entry for the given interrupt with no payload.
    pub fn new(interrupt_id: String, status: ResumeStatus) -> (r: Self)
        ensures
            r.interrupt_id == interrupt_id,
            r.status == status,
            r.payload is None,
    {
        ResumeEntry { interrupt_id, status, payload: None }
    }
}

} // verus!
