//! AI agent domain: capabilities, agent metadata, and the request and
//! response exchanged with an agent backend.
//!
//! Durations are held as whole nanoseconds (`u128`), which covers the whole
//! range of `std::time::Duration` exactly.

use vstd::prelude::*;
use vstd::string::*;

use crate::text::str_eq;

verus! {

/// The largest duration representable by `std::time::Duration`, in nanoseconds.
pub const MAX_DURATION_NANOS: u128 = 18_446_744_073_709_551_615_999_999_999u128;

/// JSON documents produced by agents are carried through untouched.
#[verifier::external_type_specification]
#[verifier::external_body]
pub struct ExJsonValue(serde_json::Value);

/// A declared capability that an agent can fulfill (e.g. `"code-generation"`).
#[derive(Debug, Clone, PartialEq, Eq, Hash)]
pub struct AgentCapability {
    name: String,
}

impl View for AgentCapability {
    type V = Seq<char>;

    closed spec fn view(&self) -> Seq<char> {
        self.name@
    }
}

impl AgentCapability {
    /// Create a new capability with the given name.
    pub fn new(name: &str) -> (c: AgentCapability)
        ensures
            c@ == name@,
    {
        AgentCapability { name: String::from_str(name) }
    }

    /// A copy of the capability.
    pub fn duplicate(&self) -> (c: AgentCapability)
        ensures
            c == *self,
    {
        AgentCapability { name: self.name.clone() }
    }

    /// The capability name.
    pub fn name(&self) -> (s: &str)
        ensures
            s@ == self@,
    {
        self.name.as_str()
    }
}

/// Static metadata describing an agent worker, used by the router.
#[derive(Debug, Clone)]
pub struct AgentInfo {
    /// Unique identifier (e.g. `"echo-agent"`).
    pub id: String,
    /// Human-readable display name.
    pub display_name: String,
    /// Capabilities this agent declares.
    pub capabilities: Vec<AgentCapability>,
    /// Maximum concurrent requests allowed for this agent.
    pub max_concurrency: usize,
    /// Default timeout per request, in nanoseconds.
    pub default_timeout: u128,
    /// Whether this agent is currently enabled.
    pub enabled: bool,
    /// Priority weight (higher = preferred when multiple agents match).
    pub priority: u32,
}

impl AgentInfo {
    /// Whether the agent declares the capability named `cap`.
    pub open spec fn declares(self, cap: Seq<char>) -> bool {
        exists|i: int| 0 <= i < self.capabilities@.len() && (#[trigger] self.capabilities@[i])@ == cap
    }

    /// A copy of the metadata, field by field.
    pub fn duplicate(&self) -> (a: AgentInfo)
        ensures
            a.id == self.id,
            a.display_name == self.display_name,
            a.capabilities@ == self.capabilities@,
            a.max_concurrency == self.max_concurrency,
            a.default_timeout == self.default_timeout,
            a.enabled == self.enabled,
            a.priority == self.priority,
    {
        let mut caps: Vec<AgentCapability> = Vec::new();
        let mut i: usize = 0;
        while i < self.capabilities.len()
            invariant
                i <= self.capabilities.len(),
                caps@ == self.capabilities@.take(i as int),
            decreases self.capabilities.len() - i,
        {
            caps.push(self.capabilities[i].duplicate());
            assert(caps@ =~= self.capabilities@.take(i + 1));
            i = i + 1;
        }
        assert(self.capabilities@.take(self.capabilities.len() as int) =~= self.capabilities@);
        AgentInfo {
            id: self.id.clone(),
            display_name: self.display_name.clone(),
            capabilities: caps,
            max_concurrency: self.max_concurrency,
            default_timeout: self.default_timeout,
            enabled: self.enabled,
            priority: self.priority,
        }
    }

    /// Check whether this agent declares a given capability.
    pub fn has_capability(&self, cap: &str) -> (b: bool)
        ensures
            b == self.declares(cap@),
    {
        let mut i: usize = 0;
        while i < self.capabilities.len()
            invariant
                i <= self.capabilities.len(),
                forall|j: int| 0 <= j < i ==> (#[trigger] self.capabilities@[j])@ != cap@,
            decreases self.capabilities.len() - i,
        {
            if str_eq(self.capabilities[i].name(), cap) {
                return true;
            }
            i = i + 1;
        }
        false
    }
}

/// A request sent to an AI agent.
#[derive(Debug, Clone)]
pub struct AgentRequest {
    /// Unique request ID for tracing.
    pub request_id: String,
    /// System-level instructions, kept apart from user content.
    pub system_prompt: String,
    /// The actual user task / message.
    pub user_prompt: String,
    /// Serialized context (previous conversation, facts, etc.).
    pub context: String,
    /// Which tools the agent is allowed to invoke, if any.
    pub allowed_tools: Vec<String>,
    /// Maximum tokens the response should consume (advisory).
    pub max_response_tokens: Option<u64>,
}

/// The response received from an AI agent.
#[derive(Debug, Clone)]
pub struct AgentResponse {
    /// The request ID this is replying to.
    pub request_id: String,
    /// Agent that produced this response.
    pub agent_id: String,
    /// The main textual content.
    pub content: String,
    /// Structured data (if the agent returned JSON).
    pub structured_data: Option<serde_json::Value>,
    /// Estimated token count of the response.
    pub estimated_tokens: u64,
    /// Wall-clock duration the agent took, in nanoseconds.
    pub duration: u128,
    /// Whether this was served from cache.
    pub cache_hit: bool,
    /// Optional error/warning messages from the agent.
    pub warnings: Vec<String>,
}

} // verus!
