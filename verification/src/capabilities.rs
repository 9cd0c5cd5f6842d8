//! What an agent declares it can do: identity, transport, tools, output,
//! state, multi-agent, reasoning, multimodal, execution and human-in-the-loop
//! capabilities.  Every field is optional; an absent field means "not
//! declared".

use crate::input::{clone_tools, Tool};
use crate::json::{clone_opt_json, JsonValue};
use crate::message::clone_opt_string;
use crate::text::clone_strings;
use vstd::prelude::*;

verus! {

/// A sub-agent that an agent can delegate to.
#[derive(Debug, PartialEq)]
pub struct SubAgentInfo {
    pub name: String,
    pub description: Option<String>,
}

/// Who the agent is.
#[derive(Debug, PartialEq, Default)]
pub struct IdentityCapabilities {
    pub name: Option<String>,
    pub agent_type: Option<String>,
    pub description: Option<String>,
    pub version: Option<String>,
    pub provider: Option<String>,
    pub documentation_url: Option<String>,
    pub metadata: Option<JsonValue>,
}

/// How the agent's events can be delivered.
#[derive(Debug, PartialEq, Default)]
pub struct TransportCapabilities {
    pub streaming: Option<bool>,
    pub websocket: Option<bool>,
    pub http_binary: Option<bool>,
    pub push_notifications: Option<bool>,
    pub resumable: Option<bool>,
}

/// Tool calling support.
#[derive(Debug, PartialEq, Default)]
pub struct ToolsCapabilities {
    pub supported: Option<bool>,
    pub items: Option<Vec<Tool>>,
    pub parallel_calls: Option<bool>,
    pub client_provided: Option<bool>,
}

/// Output format support.
#[derive(Debug, PartialEq, Default)]
pub struct OutputCapabilities {
    pub structured_output: Option<bool>,
    pub supported_mime_types: Option<Vec<String>>,
}

/// State management support.
#[derive(Debug, PartialEq, Default)]
pub struct StateCapabilities {
    pub snapshots: Option<bool>,
    pub deltas: Option<bool>,
    pub memory: Option<bool>,
    pub persistent_state: Option<bool>,
}

/// Multi-agent coordination support.
#[derive(Debug, PartialEq, Default)]
pub struct MultiAgentCapabilities {
    pub supported: Option<bool>,
    pub delegation: Option<bool>,
    pub handoffs: Option<bool>,
    pub sub_agents: Option<Vec<SubAgentInfo>>,
}

/// Reasoning (thinking) support.
#[derive(Debug, PartialEq, Default)]
pub struct ReasoningCapabilities {
    pub supported: Option<bool>,
    pub streaming: Option<bool>,
    pub encrypted: Option<bool>,
}

/// Accepted kinds of multimodal input.
#[derive(Debug, PartialEq, Default)]
pub struct MultimodalInputCapabilities {
    pub image: Option<bool>,
    pub audio: Option<bool>,
    pub video: Option<bool>,
    pub pdf: Option<bool>,
    pub file: Option<bool>,
}

/// Produced kinds of multimodal output.
#[derive(Debug, PartialEq, Default)]
pub struct MultimodalOutputCapabilities {
    pub image: Option<bool>,
    pub audio: Option<bool>,
}

/// Multimodal input and output support.
#[derive(Debug, PartialEq, Default)]
pub struct MultimodalCapabilities {
    pub input: Option<MultimodalInputCapabilities>,
    pub output: Option<MultimodalOutputCapabilities>,
}

/// Code execution support and limits.
#[derive(Debug, PartialEq, Default)]
pub struct ExecutionCapabilities {
    pub code_execution: Option<bool>,
    pub sandboxed: Option<bool>,
    pub max_iterations: Option<u64>,
    pub max_execution_time: Option<u64>,
}

/// Human-in-the-loop support.
#[derive(Debug, PartialEq, Default)]
pub struct HumanInTheLoopCapabilities {
    pub supported: Option<bool>,
    pub approvals: Option<bool>,
    pub interventions: Option<bool>,
    pub feedback: Option<bool>,
    pub interrupts: Option<bool>,
    pub approve_with_edits: Option<bool>,
}

/// Everything an agent declares about itself.
#[derive(Debug, PartialEq, Default)]
pub struct AgentCapabilities {
    pub identity: Option<IdentityCapabilities>,
    pub transport: Option<TransportCapabilities>,
    pub tools: Option<ToolsCapabilities>,
    pub output: Option<OutputCapabilities>,
    pub state: Option<StateCapabilities>,
    pub multi_agent: Option<MultiAgentCapabilities>,
    pub reasoning: Option<ReasoningCapabilities>,
    pub multimodal: Option<MultimodalCapabilities>,
    pub execution: Option<ExecutionCapabilities>,
    pub human_in_the_loop: Option<HumanInTheLoopCapabilities>,
    pub custom: Option<JsonValue>,
}

/// Two optional lists hold the same items in the same order.
pub open spec fn same_opt_list<T>(a: Option<Vec<T>>, b: Option<Vec<T>>) -> bool {
    match (a, b) {
        (Some(x), Some(y)) => x@ == y@,
        (None, None) => true,
        _ => false,
    }
}

/// Two optional tool capabilities are the same.
pub open spec fn same_opt_tools(a: Option<ToolsCapabilities>, b: Option<ToolsCapabilities>) -> bool {
    match (a, b) {
        (Some(x), Some(y)) => x.supported == y.supported && same_opt_list(x.items, y.items)
            && x.parallel_calls == y.parallel_calls && x.client_provided == y.client_provided,
        (None, None) => true,
        _ => false,
    }
}

/// Two optional output capabilities are the same.
pub open spec fn same_opt_output(a: Option<OutputCapabilities>, b: Option<OutputCapabilities>) -> bool {
    match (a, b) {
        (Some(x), Some(y)) => x.structured_output == y.structured_output && same_opt_list(
            x.supported_mime_types,
            y.supported_mime_types,
        ),
        (None, None) => true,
        _ => false,
    }
}

/// Two optional multi-agent capabilities are the same.
pub open spec fn same_opt_multi_agent(a: Option<MultiAgentCapabilities>, b: Option<MultiAgentCapabilities>) -> bool {
    match (a, b) {
        (Some(x), Some(y)) => x.supported == y.supported && x.delegation == y.delegation && x.handoffs
            == y.handoffs && same_opt_list(x.sub_agents, y.sub_agents),
        (None, None) => true,
        _ => false,
    }
}

/// Clones a list of sub-agents element by element.
fn clone_sub_agents(v: &Vec<SubAgentInfo>) -> (r: Vec<SubAgentInfo>)
    ensures
        r@ == v@,
{
    let mut out: Vec<SubAgentInfo> = Vec::new();
    let mut i: usize = 0;
    while i < v.len()
        invariant
            i <= v.len(),
            out@ == v@.subrange(0, i as int),
        decreases v.len() - i,
    {
        out.push(v[i].clone());
        i = i + 1;
    }
    assert(out@ =~= v@);
    out
}

impl Clone for SubAgentInfo {
    fn clone(&self) -> (r: Self)
        ensures
            r == *self,
    {
        SubAgentInfo {
            name: self.name.clone(),
            description: clone_opt_string(&self.description),
        }
    }
}

impl Clone for IdentityCapabilities {
    fn clone(&self) -> (r: Self)
        ensures
            r == *self,
    {
        IdentityCapabilities {
            name: clone_opt_string(&self.name),
            agent_type: clone_opt_string(&self.agent_type),
            description: clone_opt_string(&self.description),
            version: clone_opt_string(&self.version),
            provider: clone_opt_string(&self.provider),
            documentation_url: clone_opt_string(&self.documentation_url),
            metadata: clone_opt_json(&self.metadata),
        }
    }
}

impl Clone for TransportCapabilities {
    fn clone(&self) -> (r: Self)
        ensures
            r == *self,
    {
        TransportCapabilities {
            streaming: self.streaming,
            websocket: self.websocket,
            http_binary: self.http_binary,
            push_notifications: self.push_notifications,
            resumable: self.resumable,
        }
    }
}

impl Clone for ToolsCapabilities {
    fn clone(&self) -> (r: Self)
        ensures
            r.supported == self.supported,
            same_opt_list(r.items, self.items),
            r.parallel_calls == self.parallel_calls,
            r.client_provided == self.client_provided,
    {
        ToolsCapabilities {
            supported: self.supported,
            items: match &self.items {
                Some(v) => Some(clone_tools(v)),
                None => None,
            },
            parallel_calls: self.parallel_calls,
            client_provided: self.client_provided,
        }
    }
}

impl Clone for OutputCapabilities {
    fn clone(&self) -> (r: Self)
        ensures
            r.structured_output == self.structured_output,
            same_opt_list(r.supported_mime_types, self.supported_mime_types),
    {
        OutputCapabilities {
            structured_output: self.structured_output,
            supported_mime_types: match &self.supported_mime_types {
                Some(v) => Some(clone_strings(v)),
                None => None,
            },
        }
    }
}

impl Clone for StateCapabilities {
    fn clone(&self) -> (r: Self)
        ensures
            r == *self,
    {
        StateCapabilities {
            snapshots: self.snapshots,
            deltas: self.deltas,
            memory: self.memory,
            persistent_state: self.persistent_state,
        }
    }
}

impl Clone for MultiAgentCapabilities {
    fn clone(&self) -> (r: Self)
        ensures
            r.supported == self.supported,
            r.delegation == self.delegation,
            r.handoffs == self.handoffs,
            same_opt_list(r.sub_agents, self.sub_agents),
    {
        MultiAgentCapabilities {
            supported: self.supported,
            delegation: self.delegation,
            handoffs: self.handoffs,
            sub_agents: match &self.sub_agents {
                Some(v) => Some(clone_sub_agents(v)),
                None => None,
            },
        }
    }
}

impl Clone for ReasoningCapabilities {
    fn clone(&self) -> (r: Self)
        ensures
            r == *self,
    {
        ReasoningCapabilities {
            supported: self.supported,
            streaming: self.streaming,
            encrypted: self.encrypted,
        }
    }
}

impl Clone for MultimodalInputCapabilities {
    fn clone(&self) -> (r: Self)
        ensures
            r == *self,
    {
        MultimodalInputCapabilities {
            image: self.image,
            audio: self.audio,
            video: self.video,
            pdf: self.pdf,
            file: self.file,
        }
    }
}

impl Clone for MultimodalOutputCapabilities {
    fn clone(&self) -> (r: Self)
        ensures
            r == *self,
    {
        MultimodalOutputCapabilities {
            image: self.image,
            audio: self.audio,
        }
    }
}

impl Clone for MultimodalCapabilities {
    fn clone(&self) -> (r: Self)
        ensures
            r == *self,
    {
        MultimodalCapabilities {
            input: match &self.input {
                Some(v) => Some(v.clone()),
                None => None,
            },
            output: match &self.output {
                Some(v) => Some(v.clone()),
                None => None,
            },
        }
    }
}

impl Clone for ExecutionCapabilities {
    fn clone(&self) -> (r: Self)
        ensures
            r == *self,
    {
        ExecutionCapabilities {
            code_execution: self.code_execution,
            sandboxed: self.sandboxed,
            max_iterations: self.max_iterations,
            max_execution_time: self.max_execution_time,
        }
    }
}

impl Clone for HumanInTheLoopCapabilities {
    fn clone(&self) -> (r: Self)
        ensures
            r == *self,
    {
        HumanInTheLoopCapabilities {
            supported: self.supported,
            approvals: self.approvals,
            interventions: self.interventions,
            feedback: self.feedback,
            interrupts: self.interrupts,
            approve_with_edits: self.approve_with_edits,
        }
    }
}

impl Clone for AgentCapabilities {
    fn clone(&self) -> (r: Self)
        ensures
            r.identity == self.identity,
            r.transport == self.transport,
            same_opt_tools(r.tools, self.tools),
            same_opt_output(r.output, self.output),
            r.state == self.state,
            same_opt_multi_agent(r.multi_agent, self.multi_agent),
            r.reasoning == self.reasoning,
            r.multimodal == self.multimodal,
            r.execution == self.execution,
            r.human_in_the_loop == self.human_in_the_loop,
            r.custom == self.custom,
    {
        AgentCapabilities {
            identity: match &self.identity {
                Some(v) => Some(v.clone()),
                None => None,
            },
            transport: match &self.transport {
                Some(v) => Some(v.clone()),
                None => None,
            },
            tools: match &self.tools {
                Some(v) => Some(v.clone()),
                None => None,
            },
            output: match &self.output {
                Some(v) => Some(v.clone()),
                None => None,
            },
            state: match &self.state {
                Some(v) => Some(v.clone()),
                None => None,
            },
            multi_agent: match &self.multi_agent {
                Some(v) => Some(v.clone()),
                None => None,
            },
            reasoning: match &self.reasoning {
                Some(v) => Some(v.clone()),
                None => None,
            },
            multimodal: match &self.multimodal {
                Some(v) => Some(v.clone()),
                None => None,
            },
            execution: match &self.execution {
                Some(v) => Some(v.clone()),
                None => None,
            },
            human_in_the_loop: match &self.human_in_the_loop {
                Some(v) => Some(v.clone()),
                None => None,
            },
            custom: clone_opt_json(&self.custom),
        }
    }
}

} // verus!
