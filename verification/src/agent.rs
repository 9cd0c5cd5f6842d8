//! What a server knows of a request and reports of an agent's health: the
//! request's headers and identifiers, and the health status answered to load
//! balancer probes.

use crate::message::clone_opt_string;
use vstd::prelude::*;

verus! {

/// The texts of a list of name/value pairs.
pub open spec fn pair_texts(v: Seq<(String, String)>) -> Seq<(Seq<char>, Seq<char>)> {
    v.map_values(|p: (String, String)| (p.0@, p.1@))
}

/// The value of the header `name`: the one given last.
pub open spec fn header_value(h: Seq<(Seq<char>, Seq<char>)>, name: Seq<char>) -> Option<Seq<char>>
    decreases h.len(),
{
    if h.len() == 0 {
        None
    } else if h.last().0 == name {
        Some(h.last().1)
    } else {
        header_value(h.drop_last(), name)
    }
}

/// The texts of an optional string.
pub open spec fn opt_text(o: Option<String>) -> Option<Seq<char>> {
    match o {
        Some(s) => Some(s@),
        None => None,
    }
}

/// Request headers by lower-case name; a value given later for a name
/// replaces the one given before.
#[derive(Debug)]
pub struct Headers {
    entries: Vec<(String, String)>,
}

impl View for Headers {
    type V = Seq<(Seq<char>, Seq<char>)>;

    /// The name/value pairs in the order they were given.
    closed spec fn view(&self) -> Seq<(Seq<char>, Seq<char>)> {
        pair_texts(self.entries@)
    }
}

impl Clone for Headers {
    fn clone(&self) -> (r: Self)
        ensures
            r@ == self@,
    {
        let mut out: Vec<(String, String)> = Vec::new();
        let mut i: usize = 0;
        while i < self.entries.len()
            invariant
                i <= self.entries.len(),
                pair_texts(out@) == pair_texts(self.entries@.subrange(0, i as int)),
            decreases self.entries.len() - i,
        {
            let pair = (self.entries[i].0.clone(), self.entries[i].1.clone());
            proof {
                assert(self.entries@.subrange(0, i + 1) =~= self.entries@.subrange(0, i as int).push(
                    self.entries@[i as int],
                ));
                assert(pair_texts(out@.push(pair)) =~= pair_texts(out@).push((pair.0@, pair.1@)));
                assert(pair_texts(self.entries@.subrange(0, i + 1)) =~= pair_texts(
                    self.entries@.subrange(0, i as int),
                ).push((pair.0@, pair.1@)));
            }
            out.push(pair);
            i = i + 1;
        }
        assert(self.entries@.subrange(0, self.entries@.len() as int) =~= self.entries@);
        Headers { entries: out }
    }
}

impl Default for Headers {
    fn default() -> (r: Self)
        ensures
            r@ == Seq::<(Seq<char>, Seq<char>)>::empty(),
    {
        Headers::new()
    }
}

impl Headers {
    /// No headers.
    pub fn new() -> (r: Self)
        ensures
            r@ == Seq::<(Seq<char>, Seq<char>)>::empty(),
    {
        let r = Headers { entries: Vec::new() };
        assert(r@ =~= Seq::<(Seq<char>, Seq<char>)>::empty());
        r
    }

    /// The index of the last pair named `name`.
    fn find(&self, name: &str) -> (r: Option<usize>)
        ensures
            match r {
                Some(i) => i < self.entries@.len() && self.entries@[i as int].0@ == name@ && header_value(
                    self@,
                    name@,
                ) == Some(self.entries@[i as int].1@),
                None => header_value(self@, name@) is None,
            },
    {
        let key = name.to_owned();
        let mut i: usize = self.entries.len();
        assert(pair_texts(self.entries@).take(i as int) =~= pair_texts(self.entries@));
        while i > 0
            invariant
                i <= self.entries@.len(),
                key@ == name@,
                header_value(self@, name@) == header_value(pair_texts(self.entries@).take(i as int), name@),
            decreases i,
        {
            let ghost prefix = pair_texts(self.entries@).take(i as int);
            assert(prefix.drop_last() =~= pair_texts(self.entries@).take(i - 1));
            if self.entries[i - 1].0 == key {
                return Some(i - 1);
            }
            i = i - 1;
        }
        None
    }

    /// The value of the header `name`, the one given last.
    pub fn get(&self, name: &str) -> (r: Option<&String>)
        ensures
            match r {
                Some(v) => header_value(self@, name@) == Some(v@),
                None => header_value(self@, name@) is None,
            },
    {
        match self.find(name) {
            Some(i) => Some(&self.entries[i].1),
            None => None,
        }
    }

    /// Sets the header `name` to `value`, giving back the value it had.
    pub fn insert(&mut self, name: String, value: String) -> (r: Option<String>)
        ensures
            final(self)@ == old(self)@.push((name@, value@)),
            opt_text(r) == header_value(old(self)@, name@),
    {
        let previous = match self.find(name.as_str()) {
            Some(i) => Some(self.entries[i].1.clone()),
            None => None,
        };
        let ghost before = self.entries@;
        self.entries.push((name, value));
        assert(pair_texts(self.entries@) =~= pair_texts(before).push((name@, value@)));
        previous
    }
}

/// Proof that a header reads back as the value set last, and that setting
/// one header leaves the others as they were.
pub proof fn lemma_header_reads_back(h: Seq<(Seq<char>, Seq<char>)>, name: Seq<char>, value: Seq<char>, other: Seq<char>)
    ensures
        header_value(h.push((name, value)), name) == Some(value),
        other != name ==> header_value(h.push((name, value)), other) == header_value(h, other),
{
    assert(h.push((name, value)).drop_last() =~= h);
}

/// What a server knows of an incoming request.
#[derive(Debug)]
pub struct RequestMetadata {
    /// Request headers by lower-case name.
    pub headers: Headers,
    /// The client's address, if known.
    pub remote_addr: Option<String>,
    /// The request id, for correlation.
    pub request_id: Option<String>,
    /// The trace id, for distributed tracing.
    pub trace_id: Option<String>,
}

impl Clone for RequestMetadata {
    fn clone(&self) -> (r: Self)
        ensures
            r.headers@ == self.headers@,
            r.remote_addr == self.remote_addr,
            r.request_id == self.request_id,
            r.trace_id == self.trace_id,
    {
        RequestMetadata {
            headers: self.headers.clone(),
            remote_addr: clone_opt_string(&self.remote_addr),
            request_id: clone_opt_string(&self.request_id),
            trace_id: clone_opt_string(&self.trace_id),
        }
    }
}

impl Default for RequestMetadata {
    fn default() -> (r: Self)
        ensures
            r.headers@ == Seq::<(Seq<char>, Seq<char>)>::empty(),
            r.remote_addr is None,
            r.request_id is None,
            r.trace_id is None,
    {
        RequestMetadata { headers: Headers::new(), remote_addr: None, request_id: None, trace_id: None }
    }
}

/// The first header named `name` in a request's header list, and its text
/// when it has one.
pub open spec fn first_header(hs: Seq<(String, Option<String>)>, name: Seq<char>) -> Option<Option<String>>
    decreases hs.len(),
{
    if hs.len() == 0 {
        None
    } else if hs[0].0@ == name {
        Some(hs[0].1)
    } else {
        first_header(hs.drop_first(), name)
    }
}

/// The text of the first header named `name`, when it is there and is text.
pub open spec fn first_header_text(hs: Seq<(String, Option<String>)>, name: Seq<char>) -> Option<String> {
    match first_header(hs, name) {
        Some(Some(v)) => Some(v),
        _ => None,
    }
}

/// The header pairs kept from a request: its authorization and user agent.
pub open spec fn kept_headers(hs: Seq<(String, Option<String>)>) -> Seq<(Seq<char>, Seq<char>)> {
    let auth: Seq<(Seq<char>, Seq<char>)> = match first_header_text(hs, "authorization"@) {
        Some(v) => seq![("authorization"@, v@)],
        None => Seq::empty(),
    };
    let agent: Seq<(Seq<char>, Seq<char>)> = match first_header_text(hs, "user-agent"@) {
        Some(v) => seq![("user-agent"@, v@)],
        None => Seq::empty(),
    };
    auth + agent
}

/// The text of the first header named `name`.
fn first_header_value(hs: &[(String, Option<String>)], name: &str) -> (r: Option<String>)
    ensures
        r == first_header_text(hs@, name@),
{
    let key = name.to_owned();
    let mut i: usize = 0;
    assert(hs@.subrange(0, hs@.len() as int) =~= hs@);
    while i < hs.len()
        invariant
            i <= hs@.len(),
            key@ == name@,
            first_header(hs@, name@) == first_header(hs@.subrange(i as int, hs@.len() as int), name@),
        decreases hs.len() - i,
    {
        let ghost rest = hs@.subrange(i as int, hs@.len() as int);
        assert(rest.drop_first() =~= hs@.subrange(i + 1, hs@.len() as int));
        if hs[i].0 == key {
            return match &hs[i].1 {
                Some(v) => Some(v.clone()),
                None => None,
            };
        }
        i = i + 1;
    }
    None
}

impl RequestMetadata {
    /// Metadata with the given headers and nothing else.
    pub fn with_headers(headers: Headers) -> (r: Self)
        ensures
            r.headers@ == headers@,
            r.remote_addr is None,
            r.request_id is None,
            r.trace_id is None,
    {
        RequestMetadata { headers, remote_addr: None, request_id: None, trace_id: None }
    }

    /// The metadata with the client's address set.
    pub fn with_remote_addr(self, addr: &str) -> (r: Self)
        ensures
            r.headers@ == self.headers@,
            opt_text(r.remote_addr) == Some(addr@),
            r.request_id == self.request_id,
            r.trace_id == self.trace_id,
    {
        RequestMetadata { remote_addr: Some(addr.to_owned()), ..self }
    }

    /// The metadata with the request id set.
    pub fn with_request_id(self, id: &str) -> (r: Self)
        ensures
            r.headers@ == self.headers@,
            r.remote_addr == self.remote_addr,
            opt_text(r.request_id) == Some(id@),
            r.trace_id == self.trace_id,
    {
        RequestMetadata { request_id: Some(id.to_owned()), ..self }
    }

    /// The metadata with the trace id set.
    pub fn with_trace_id(self, id: &str) -> (r: Self)
        ensures
            r.headers@ == self.headers@,
            r.remote_addr == self.remote_addr,
            r.request_id == self.request_id,
            opt_text(r.trace_id) == Some(id@),
    {
        RequestMetadata { trace_id: Some(id.to_owned()), ..self }
    }

    /// The value of the header `name`.
    pub fn header(&self, name: &str) -> (r: Option<&String>)
        ensures
            match r {
                Some(v) => header_value(self.headers@, name@) == Some(v@),
                None => header_value(self.headers@, name@) is None,
            },
    {
        self.headers.get(name)
    }

    /// The `Authorization` header.
    pub fn authorization(&self) -> (r: Option<&String>)
        ensures
            match r {
                Some(v) => header_value(self.headers@, "authorization"@) == Some(v@),
                None => header_value(self.headers@, "authorization"@) is None,
            },
    {
        self.headers.get("authorization")
    }

    /// The `Content-Type` header.
    pub fn content_type(&self) -> (r: Option<&String>)
        ensures
            match r {
                Some(v) => header_value(self.headers@, "content-type"@) == Some(v@),
                None => header_value(self.headers@, "content-type"@) is None,
            },
    {
        self.headers.get("content-type")
    }

    /// The `Accept` header.
    pub fn accept(&self) -> (r: Option<&String>)
        ensures
            match r {
                Some(v) => header_value(self.headers@, "accept"@) == Some(v@),
                None => header_value(self.headers@, "accept"@) is None,
            },
    {
        self.headers.get("accept")
    }

    /// The metadata of a request from its headers, given in order as
    /// lower-case names with their values as text (`None` for a value that
    /// is not visible ASCII): the authorization and user-agent headers are
    /// kept, and the request and trace ids taken from `x-request-id` and
    /// `x-trace-id`; for a repeated name the first one counts.
    pub fn from_headers(headers: &[(String, Option<String>)]) -> (r: Self)
        ensures
            r.headers@ == kept_headers(headers@),
            r.remote_addr is None,
            r.request_id == first_header_text(headers@, "x-request-id"@),
            r.trace_id == first_header_text(headers@, "x-trace-id"@),
    {
        let mut metadata = RequestMetadata::default();
        let ghost empty = metadata.headers@;
        if let Some(auth) = first_header_value(headers, "authorization") {
            metadata.headers.insert(String::from_str("authorization"), auth);
        }
        metadata.request_id = first_header_value(headers, "x-request-id");
        metadata.trace_id = first_header_value(headers, "x-trace-id");
        if let Some(agent) = first_header_value(headers, "user-agent") {
            metadata.headers.insert(String::from_str("user-agent"), agent);
        }
        proof {
            reveal_strlit("authorization");
            reveal_strlit("user-agent");
        }
        assert(metadata.headers@ =~= kept_headers(headers@));
        metadata
    }
}

/// An agent's health, as reported to load balancer probes.
#[derive(Debug, PartialEq, Eq)]
pub enum HealthStatus {
    /// Fully operational.
    Healthy,
    /// Operational, with issues: traffic may be reduced.
    Degraded { reason: String },
    /// Unable to handle requests.
    Unhealthy { reason: String },
}

impl Clone for HealthStatus {
    fn clone(&self) -> (r: Self)
        ensures
            r == *self,
    {
        match self {
            HealthStatus::Healthy => HealthStatus::Healthy,
            HealthStatus::Degraded { reason } => HealthStatus::Degraded { reason: reason.clone() },
            HealthStatus::Unhealthy { reason } => HealthStatus::Unhealthy { reason: reason.clone() },
        }
    }
}

/// The display text of a health status.
pub open spec fn health_text(s: HealthStatus) -> Seq<char> {
    match s {
        HealthStatus::Healthy => "healthy"@,
        HealthStatus::Degraded { reason } => "degraded: "@ + reason@,
        HealthStatus::Unhealthy { reason } => "unhealthy: "@ + reason@,
    }
}

impl HealthStatus {
    /// Whether the agent can handle requests: healthy or degraded.
    pub fn is_healthy(&self) -> (r: bool)
        ensures
            r == !(*self is Unhealthy),
    {
        match self {
            HealthStatus::Unhealthy { .. } => false,
            _ => true,
        }
    }

    /// A degraded status with the given reason.
    pub fn degraded(reason: &str) -> (r: Self)
        ensures
            r matches HealthStatus::Degraded { reason: s } && s@ == reason@,
    {
        HealthStatus::Degraded { reason: reason.to_owned() }
    }

    /// An unhealthy status with the given reason.
    pub fn unhealthy(reason: &str) -> (r: Self)
        ensures
            r matches HealthStatus::Unhealthy { reason: s } && s@ == reason@,
    {
        HealthStatus::Unhealthy { reason: reason.to_owned() }
    }

    /// The status's display text.
    pub fn to_string(&self) -> (r: String)
        ensures
            r@ == health_text(*self),
    {
        match self {
            HealthStatus::Healthy => String::from_str("healthy"),
            HealthStatus::Degraded { reason } => {
                let mut s = String::from_str("degraded: ");
                s.append(reason.as_str());
                s
            },
            HealthStatus::Unhealthy { reason } => {
                let mut s = String::from_str("unhealthy: ");
                s.append(reason.as_str());
                s
            },
        }
    }
}

} // verus!
