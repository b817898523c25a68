//! Domain errors: the single error type of the orchestrator and the
//! severity levels used by the policy guard.

use vstd::prelude::*;
use vstd::string::*;

use crate::text::{concat2, concat4, decimal, u64_to_decimal};

verus! {

/// Top-level error type for the orchestrator domain.
///
/// Every subsystem maps its errors into this enum. Where an error wraps an
/// underlying cause (an I/O error, the source of an agent failure), the
/// cause is carried as its rendered message.
#[derive(Debug, Clone)]
pub enum OrchestratorError {
    /// A feature or code path is not yet implemented.
    NotImplemented(String),
    /// Configuration is missing or invalid.
    InvalidConfig(String),
    /// An AI agent returned an error or could not be reached.
    AgentError { agent_id: String, message: String, source: Option<String> },
    /// Token budget exceeded for a request or session.
    TokenBudgetExceeded { used: u64, limit: u64 },
    /// The context window is too large and could not be trimmed.
    ContextOverflow(String),
    /// A tool execution failed.
    ToolExecutionError(String),
    /// A tool command was denied by the policy guard.
    ToolDenied { command: String },
    /// Prompt injection or policy violation detected.
    PolicyViolation(String),
    /// Secrets could not be retrieved.
    SecretsError(String),
    /// A task timed out.
    Timeout { duration_ms: u64, context: String },
    /// Circuit breaker tripped for an agent.
    CircuitBreakerOpen { agent_id: String, reason: String },
    /// Cache error (serialization, capacity, etc.).
    CacheError(String),
    /// Task queue is full (backpressure).
    QueueFull { queue_name: String, capacity: usize },
    /// Serialization / deserialization failure.
    SerializationError(String),
    /// I/O failure, with the message of the underlying error.
    IoError(String),
    /// Parse error for agent responses.
    ParseError { agent_id: String, message: String },
    /// Rate limit hit for an agent.
    RateLimited { agent_id: String },
}

/// The message of an error, as its `Display` renders it.
pub open spec fn error_text(e: OrchestratorError) -> Seq<char> {
    match e {
        OrchestratorError::NotImplemented(m) => "not implemented: "@ + m@,
        OrchestratorError::InvalidConfig(m) => "invalid configuration: "@ + m@,
        OrchestratorError::AgentError { agent_id, message, .. } => "agent error ["@ + agent_id@
            + "]: "@ + message@,
        OrchestratorError::TokenBudgetExceeded { used, limit } => "token budget exceeded: used "@
            + decimal(used as nat) + ", limit "@ + decimal(limit as nat),
        OrchestratorError::ContextOverflow(m) => "context overflow: "@ + m@,
        OrchestratorError::ToolExecutionError(m) => "tool execution error: "@ + m@,
        OrchestratorError::ToolDenied { command } => "tool denied by policy: "@ + command@,
        OrchestratorError::PolicyViolation(m) => "policy violation: "@ + m@,
        OrchestratorError::SecretsError(m) => "secrets error: "@ + m@,
        OrchestratorError::Timeout { duration_ms, context } => "timeout after "@ + decimal(
            duration_ms as nat,
        ) + "ms: "@ + context@,
        OrchestratorError::CircuitBreakerOpen { agent_id, reason } => "circuit breaker open for agent "@
            + agent_id@ + ": "@ + reason@,
        OrchestratorError::CacheError(m) => "cache error: "@ + m@,
        OrchestratorError::QueueFull { queue_name, capacity } => "task queue full for "@
            + queue_name@ + ": capacity "@ + decimal(capacity as nat),
        OrchestratorError::SerializationError(m) => "serialization error: "@ + m@,
        OrchestratorError::IoError(m) => "I/O error: "@ + m@,
        OrchestratorError::ParseError { agent_id, message } => "parse error for agent "@
            + agent_id@ + ": "@ + message@,
        OrchestratorError::RateLimited { agent_id } => "rate limited: agent "@ + agent_id@,
    }
}

impl OrchestratorError {
    /// Create an `AgentError` without an underlying source.
    pub fn agent(agent_id: &str, message: &str) -> (e: OrchestratorError)
        ensures
            e matches OrchestratorError::AgentError { agent_id: a, message: m, source: s } && a@
                == agent_id@ && m@ == message@ && s is None,
    {
        OrchestratorError::AgentError {
            agent_id: String::from_str(agent_id),
            message: String::from_str(message),
            source: None,
        }
    }

    /// Create an `AgentError` with an underlying source, given by its message.
    pub fn agent_with_source(agent_id: &str, message: &str, source: String) -> (e:
        OrchestratorError)
        ensures
            e matches OrchestratorError::AgentError { agent_id: a, message: m, source: s } && a@
                == agent_id@ && m@ == message@ && s == Some(source),
    {
        OrchestratorError::AgentError {
            agent_id: String::from_str(agent_id),
            message: String::from_str(message),
            source: Some(source),
        }
    }

    /// The error's message (what its `Display` prints).
    pub fn to_string(&self) -> (s: String)
        ensures
            s@ == error_text(*self),
    {
        match self {
            OrchestratorError::NotImplemented(m) => concat2("not implemented: ", m.as_str()),
            OrchestratorError::InvalidConfig(m) => concat2("invalid configuration: ", m.as_str()),
            OrchestratorError::AgentError { agent_id, message, .. } => concat4(
                "agent error [",
                agent_id.as_str(),
                "]: ",
                message.as_str(),
            ),
            OrchestratorError::TokenBudgetExceeded { used, limit } => {
                let u = u64_to_decimal(*used);
                let l = u64_to_decimal(*limit);
                concat4("token budget exceeded: used ", u.as_str(), ", limit ", l.as_str())
            },
            OrchestratorError::ContextOverflow(m) => concat2("context overflow: ", m.as_str()),
            OrchestratorError::ToolExecutionError(m) => concat2(
                "tool execution error: ",
                m.as_str(),
            ),
            OrchestratorError::ToolDenied { command } => concat2(
                "tool denied by policy: ",
                command.as_str(),
            ),
            OrchestratorError::PolicyViolation(m) => concat2("policy violation: ", m.as_str()),
            OrchestratorError::SecretsError(m) => concat2("secrets error: ", m.as_str()),
            OrchestratorError::Timeout { duration_ms, context } => {
                let d = u64_to_decimal(*duration_ms);
                concat4("timeout after ", d.as_str(), "ms: ", context.as_str())
            },
            OrchestratorError::CircuitBreakerOpen { agent_id, reason } => concat4(
                "circuit breaker open for agent ",
                agent_id.as_str(),
                ": ",
                reason.as_str(),
            ),
            OrchestratorError::CacheError(m) => concat2("cache error: ", m.as_str()),
            OrchestratorError::QueueFull { queue_name, capacity } => {
                let c = u64_to_decimal(*capacity as u64);
                concat4("task queue full for ", queue_name.as_str(), ": capacity ", c.as_str())
            },
            OrchestratorError::SerializationError(m) => concat2(
                "serialization error: ",
                m.as_str(),
            ),
            OrchestratorError::IoError(m) => concat2("I/O error: ", m.as_str()),
            OrchestratorError::ParseError { agent_id, message } => concat4(
                "parse error for agent ",
                agent_id.as_str(),
                ": ",
                message.as_str(),
            ),
            OrchestratorError::RateLimited { agent_id } => concat2(
                "rate limited: agent ",
                agent_id.as_str(),
            ),
        }
    }
}

/// Severity level for policy violations, used by the policy guard.
#[derive(Debug, Clone, Copy, PartialEq, Eq, Structural)]
pub enum Severity {
    /// Informational: logged but not blocking.
    Info,
    /// Warning: logged, may trigger rate limit.
    Warning,
    /// Critical: the request is rejected.
    Critical,
}

/// The label under which a severity is displayed.
pub open spec fn severity_label(s: Severity) -> Seq<char> {
    match s {
        Severity::Info => "INFO"@,
        Severity::Warning => "WARNING"@,
        Severity::Critical => "CRITICAL"@,
    }
}

impl Severity {
    /// The severity's display label (`INFO`, `WARNING`, `CRITICAL`).
    pub fn to_string(&self) -> (s: String)
        ensures
            s@ == severity_label(*self),
    {
        match self {
            Severity::Info => String::from_str("INFO"),
            Severity::Warning => String::from_str("WARNING"),
            Severity::Critical => String::from_str("CRITICAL"),
        }
    }
}

} // verus!
