//! Tasks: the subtasks a plan is made of, and the timeout policy.

use vstd::prelude::*;

use crate::domain::agent::AgentCapability;

verus! {

/// Lifecycle state of a subtask.
#[derive(Debug, Clone, Copy, PartialEq, Eq, Structural)]
pub enum TaskStatus {
    /// Waiting to be dispatched.
    Pending,
    /// Dispatched to an agent.
    Running,
    /// Finished successfully.
    Completed,
    /// Finished with an error.
    Failed,
}

/// One unit of work of an execution plan.
#[derive(Debug, Clone)]
pub struct SubTask {
    /// Unique subtask identifier.
    pub id: String,
    /// The user request this subtask belongs to.
    pub parent_request_id: String,
    /// Human-readable description.
    pub description: String,
    /// Capability an agent needs to run it.
    pub required_capability: AgentCapability,
    /// Prompt sent to the agent.
    pub prompt: String,
    /// Token limit for the subtask.
    pub max_tokens: Option<u64>,
    /// Timeout override, in nanoseconds.
    pub timeout: Option<u128>,
    /// Current status.
    pub status: TaskStatus,
    /// Identifiers of subtasks that must finish first.
    pub depends_on: Vec<String>,
    /// How many times it was retried.
    pub retry_count: u32,
    /// Agent it was assigned to, once routed.
    pub assigned_agent: Option<String>,
}

/// The plan produced for a user request.
#[derive(Debug, Clone)]
pub struct ExecutionPlan {
    /// The request this plan answers.
    pub request_id: String,
    /// Subtasks, in dispatch order.
    pub subtasks: Vec<SubTask>,
    /// Estimated token cost of the whole plan.
    pub estimated_total_tokens: u64,
}

/// One second, in nanoseconds.
pub const NANOS_PER_SEC: u128 = 1_000_000_000u128;

/// Timeout policy configuration (durations in nanoseconds).
#[derive(Debug, Clone, Copy)]
pub struct TimeoutPolicy {
    /// Timeout used when a subtask sets none.
    pub default_timeout: u128,
    /// Upper bound for any timeout.
    pub max_timeout: u128,
}

impl Default for TimeoutPolicy {
    fn default() -> (p: TimeoutPolicy)
        ensures
            p.default_timeout == 120 * NANOS_PER_SEC,
            p.max_timeout == 600 * NANOS_PER_SEC,
    {
        TimeoutPolicy { default_timeout: 120 * NANOS_PER_SEC, max_timeout: 600 * NANOS_PER_SEC }
    }
}

} // verus!
