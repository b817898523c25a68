use omnishell_orchestrator::domain::agent::{AgentCapability, AgentInfo};
use omnishell_orchestrator::domain::cache::{CacheConfig, CacheKey};
use omnishell_orchestrator::domain::context::{
    ContextConfig, Ledger, LedgerEntry, LedgerEntryKind, Message, MessageRole,
};
use omnishell_orchestrator::domain::error::{OrchestratorError, Severity};
use omnishell_orchestrator::domain::orchestrator::CacheStats;
use omnishell_orchestrator::domain::policy::{
    PolicyCheckResult, PolicyConfig, PolicyViolation, ViolationKind,
};
use omnishell_orchestrator::domain::secrets::SecretsProvider;
use omnishell_orchestrator::domain::task::TimeoutPolicy;
use omnishell_orchestrator::domain::token::{
    SimpleTokenCounter, TokenBudget, TokenBudgetConfig, TokenCounter,
};
use omnishell_orchestrator::domain::tool::ToolExecutorConfig;

#[test]
fn capability_name_round_trips() {
    let cap = AgentCapability::new("code-generation");
    assert_eq!(cap.name(), "code-generation");
}

#[test]
fn has_capability_checks_declared_names() {
    let info = AgentInfo {
        id: "a".to_string(),
        display_name: "A".to_string(),
        capabilities: vec![AgentCapability::new("general"), AgentCapability::new("code-generation")],
        max_concurrency: 1,
        default_timeout: 0,
        enabled: true,
        priority: 1,
    };
    assert!(info.has_capability("general"));
    assert!(info.has_capability("code-generation"));
    assert!(!info.has_capability("code"));
}

#[test]
fn cache_key_is_sha256_hex_of_components() {
    let key = CacheKey::compute("hello", "ctx", "agent-1", "v1");
    assert_eq!(key.as_str().len(), 64);
    assert_eq!(
        key.as_str(),
        "af40cc338521932a2bf2845e12415a6ee79fb7f26426dce418ed058d2761e91d"
    );
    let empty = CacheKey::compute("", "", "", "");
    assert_eq!(
        empty.as_str(),
        "be5be69f55e91af25e54ecc2154d4da359b67b3b27e25f5cc0b3ff54eb74dff3"
    );
    assert_ne!(key, CacheKey::compute("hello", "ctx", "agent-2", "v1"));
}

#[test]
fn simple_counter_rounds_up_quarter_of_bytes() {
    let counter = SimpleTokenCounter;
    assert_eq!(counter.count_tokens(""), 0);
    assert_eq!(counter.count_tokens("Hello, world!"), 4);
    assert_eq!(counter.count_tokens("abcd"), 1);
    assert_eq!(counter.count_tokens("abcde"), 2);
    assert_eq!(counter.count_tokens("ñ"), 1);
    assert!(counter.count_tokens("Hello, world!") > 0);
}

#[test]
fn token_budget_lifecycle() {
    let mut budget = TokenBudget::new(4000);
    assert_eq!(budget.remaining(), 4000);
    assert!(!budget.is_exhausted());
    budget.consume(1500).unwrap();
    assert_eq!(budget.remaining(), 2500);
    match budget.consume(3000) {
        Err(OrchestratorError::TokenBudgetExceeded { used, limit }) => {
            assert_eq!(used, 4500);
            assert_eq!(limit, 4000);
        }
        other => panic!("unexpected: {:?}", other),
    }
    assert_eq!(budget.used, 1500);
    budget.consume(2500).unwrap();
    assert!(budget.is_exhausted());
    assert_eq!(budget.remaining(), 0);
    budget.reset();
    assert_eq!(budget.remaining(), 4000);
    let over = TokenBudget { limit: 10, used: 20 };
    assert_eq!(over.remaining(), 0);
    assert!(over.is_exhausted());
}

#[test]
fn defaults_match_documented_values() {
    let t = TokenBudgetConfig::default();
    assert_eq!(t.per_request_limit, 8000);
    assert_eq!(t.per_session_limit, 100_000);
    let c = CacheConfig::default();
    assert!(c.enabled);
    assert_eq!(c.max_entries, 1000);
    assert_eq!(c.max_bytes, 50 * 1024 * 1024);
    assert_eq!(c.ttl_seconds, 3600);
    let ctx = ContextConfig::default();
    assert_eq!(ctx.max_messages, 100);
    assert_eq!(ctx.max_bytes, 512 * 1024);
    assert_eq!(ctx.max_tokens, 8000);
    assert!(ctx.enable_summarization);
    let tp = TimeoutPolicy::default();
    assert_eq!(tp.default_timeout, 120_000_000_000);
    assert_eq!(tp.max_timeout, 600_000_000_000);
    let tool = ToolExecutorConfig::default();
    assert!(!tool.enabled);
    assert!(tool.allowed_commands.is_empty());
    assert_eq!(tool.working_dir, ".");
    assert_eq!(tool.timeout, 30_000_000_000);
    assert_eq!(tool.max_stdout_bytes, 1024 * 1024);
    assert_eq!(tool.max_stderr_bytes, 256 * 1024);
    let p = PolicyConfig::default();
    assert!(p.enabled);
    assert_eq!(p.max_input_bytes, 100_000);
    assert_eq!(p.suspicious_patterns.len(), 3);
    assert_eq!(p.suspicious_patterns[1], r"(?i)system\s*:\s*you\s+are");
    let s = CacheStats::default();
    assert_eq!((s.hits, s.misses), (0, 0));
}

#[test]
fn policy_results() {
    let pass = PolicyCheckResult::pass();
    assert!(pass.allowed);
    assert_eq!(pass.severity, Severity::Info);
    assert_eq!(pass.reason, "passed all checks");
    let fail = PolicyCheckResult::fail(Severity::Critical, "injection").with_violation(PolicyViolation {
        kind: ViolationKind::PromptInjection,
        description: "override".to_string(),
        redacted_content: None,
    });
    assert!(!fail.allowed);
    assert_eq!(fail.severity, Severity::Critical);
    assert_eq!(fail.reason, "injection");
    assert_eq!(fail.violations.len(), 1);
    assert_eq!(fail.violations[0].kind, ViolationKind::PromptInjection);
}

#[test]
fn severity_labels() {
    assert_eq!(Severity::Info.to_string(), "INFO");
    assert_eq!(Severity::Warning.to_string(), "WARNING");
    assert_eq!(Severity::Critical.to_string(), "CRITICAL");
}

#[test]
fn error_messages() {
    assert_eq!(
        OrchestratorError::TokenBudgetExceeded { used: 4500, limit: 4000 }.to_string(),
        "token budget exceeded: used 4500, limit 4000"
    );
    assert_eq!(OrchestratorError::agent("a1", "boom").to_string(), "agent error [a1]: boom");
    assert_eq!(
        OrchestratorError::Timeout { duration_ms: 0, context: "x".to_string() }.to_string(),
        "timeout after 0ms: x"
    );
    assert_eq!(
        OrchestratorError::QueueFull { queue_name: "q".to_string(), capacity: 1024 }.to_string(),
        "task queue full for q: capacity 1024"
    );
    assert_eq!(
        OrchestratorError::InvalidConfig("planner is required but not set".to_string()).to_string(),
        "invalid configuration: planner is required but not set"
    );
    assert_eq!(OrchestratorError::RateLimited { agent_id: "z".to_string() }.to_string(), "rate limited: agent z");
    assert_eq!(
        OrchestratorError::TokenBudgetExceeded { used: u64::MAX, limit: 10 }.to_string(),
        "token budget exceeded: used 18446744073709551615, limit 10"
    );
    match OrchestratorError::agent_with_source("a", "m", "io failed".to_string()) {
        OrchestratorError::AgentError { agent_id, message, source } => {
            assert_eq!(agent_id, "a");
            assert_eq!(message, "m");
            assert_eq!(source, Some("io failed".to_string()));
        }
        _ => panic!("wrong variant"),
    }
}

#[test]
fn ledger_filters_and_sizes() {
    let mut ledger = Ledger::new();
    let e = |kind, key: &str, value: &str| LedgerEntry {
        kind,
        key: key.to_string(),
        value: value.to_string(),
        timestamp: 0,
        source_agent: None,
    };
    ledger.add(e(LedgerEntryKind::Fact, "lang", "Rust"));
    ledger.add(e(LedgerEntryKind::Decision, "db", "pg"));
    ledger.add(e(LedgerEntryKind::Fact, "os", "linux"));
    let facts = ledger.by_kind(LedgerEntryKind::Fact);
    assert_eq!(facts.len(), 2);
    assert_eq!(facts[0].key, "lang");
    assert_eq!(facts[1].key, "os");
    assert!(ledger.by_kind(LedgerEntryKind::Summary).is_empty());
    assert_eq!(ledger.byte_size(), (4 + 4 + 64) + (2 + 2 + 64) + (2 + 5 + 64));
    let msg = Message { role: MessageRole::User, content: "héllo".to_string(), token_estimate: 2, timestamp: 0 };
    assert_eq!(msg.byte_size(), 6);
}

struct FixedSecrets;

impl SecretsProvider for FixedSecrets {
    fn get_secret(&self, key: &str) -> Result<String, OrchestratorError> {
        if key == "API_KEY" {
            Ok("s3cret".to_string())
        } else {
            Err(OrchestratorError::SecretsError(format!("secret '{}' not found", key)))
        }
    }
}

#[test]
fn has_secret_follows_get_secret() {
    let secrets = FixedSecrets;
    assert!(secrets.has_secret("API_KEY"));
    assert!(!secrets.has_secret("OTHER"));
}
