//! Policy guard domain: the outcome of a policy check, its violations, the
//! guard's configuration and its port.

use vstd::prelude::*;
use vstd::string::*;

use crate::domain::error::{OrchestratorError, Severity};

verus! {

/// A specific policy violation.
#[derive(Debug, Clone)]
pub struct PolicyViolation {
    /// Type of violation.
    pub kind: ViolationKind,
    /// Description.
    pub description: String,
    /// The offending content (redacted if sensitive).
    pub redacted_content: Option<String>,
}

/// Categories of policy violations.
#[derive(Debug, Clone, Copy, PartialEq, Eq, Structural)]
pub enum ViolationKind {
    /// Attempt to override system instructions.
    PromptInjection,
    /// Attempt to execute a denied tool.
    ToolDenied,
    /// Attempt to exfiltrate data.
    DataExfiltration,
    /// Suspicious pattern in input.
    SuspiciousPattern,
    /// Input exceeds size limits.
    SizeExceeded,
}

/// The result of a policy check.
#[derive(Debug, Clone)]
pub struct PolicyCheckResult {
    /// Whether the content passed the policy check.
    pub allowed: bool,
    /// Severity if not allowed.
    pub severity: Severity,
    /// Reason for the decision.
    pub reason: String,
    /// Specific violations found.
    pub violations: Vec<PolicyViolation>,
}

impl PolicyCheckResult {
    /// Create a passing result.
    pub fn pass() -> (r: PolicyCheckResult)
        ensures
            r.allowed,
            r.severity == Severity::Info,
            r.reason@ == "passed all checks"@,
            r.violations@ == Seq::<PolicyViolation>::empty(),
    {
        PolicyCheckResult {
            allowed: true,
            severity: Severity::Info,
            reason: String::from_str("passed all checks"),
            violations: Vec::new(),
        }
    }

    /// Create a failing result.
    pub fn fail(severity: Severity, reason: &str) -> (r: PolicyCheckResult)
        ensures
            !r.allowed,
            r.severity == severity,
            r.reason@ == reason@,
            r.violations@ == Seq::<PolicyViolation>::empty(),
    {
        PolicyCheckResult {
            allowed: false,
            severity,
            reason: String::from_str(reason),
            violations: Vec::new(),
        }
    }

    /// Add a violation to the result.
    pub fn with_violation(self, violation: PolicyViolation) -> (r: PolicyCheckResult)
        ensures
            r.allowed == self.allowed,
            r.severity == self.severity,
            r.reason == self.reason,
            r.violations@ == self.violations@.push(violation),
    {
        let mut r = self;
        r.violations.push(violation);
        r
    }
}

/// Configuration for the policy guard.
#[derive(Debug, Clone)]
pub struct PolicyConfig {
    /// Whether the policy guard is enabled.
    pub enabled: bool,
    /// Maximum input size in bytes.
    pub max_input_bytes: usize,
    /// Patterns considered suspicious (regexes as strings).
    pub suspicious_patterns: Vec<String>,
    /// Whether to enable log redaction for sensitive data.
    pub enable_redaction: bool,
}

impl Default for PolicyConfig {
    fn default() -> (c: PolicyConfig)
        ensures
            c.enabled,
            c.max_input_bytes == 100_000,
            c.enable_redaction,
            c.suspicious_patterns@.map_values(|s: String| s@) == seq![
                r"(?i)ignore\s+(all\s+)?(previous|above)\s+instructions"@,
                r"(?i)system\s*:\s*you\s+are"@,
                r"(?i)disregard\s+(all\s+)?(prior|previous)"@,
            ],
    {
        let mut patterns: Vec<String> = Vec::new();
        patterns.push(String::from_str(r"(?i)ignore\s+(all\s+)?(previous|above)\s+instructions"));
        patterns.push(String::from_str(r"(?i)system\s*:\s*you\s+are"));
        patterns.push(String::from_str(r"(?i)disregard\s+(all\s+)?(prior|previous)"));
        assert(patterns@.map_values(|s: String| s@) =~= seq![
            r"(?i)ignore\s+(all\s+)?(previous|above)\s+instructions"@,
            r"(?i)system\s*:\s*you\s+are"@,
            r"(?i)disregard\s+(all\s+)?(prior|previous)"@,
        ]);
        PolicyConfig {
            enabled: true,
            max_input_bytes: 100_000,
            suspicious_patterns: patterns,
            enable_redaction: true,
        }
    }
}

/// Port for the policy guard, implemented by the users of the library.
///
/// Checks user input, agent output, and tool requests against configured
/// policies.
pub trait PolicyGuard {
    /// Validate user input before it reaches an agent.
    fn check_user_input(&self, input: &str) -> Result<PolicyCheckResult, OrchestratorError>;

    /// Validate a tool execution request.
    fn check_tool_request(&self, command: &str, args: &[String]) -> Result<
        PolicyCheckResult,
        OrchestratorError,
    >;

    /// Validate agent output before returning to the user.
    fn check_agent_output(&self, output: &str) -> Result<PolicyCheckResult, OrchestratorError>;

    /// Redact sensitive data from a string (for logging).
    fn redact(&self, text: &str) -> String;
}

} // verus!
