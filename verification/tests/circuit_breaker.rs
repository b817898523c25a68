use omnishell_orchestrator::application::circuit_breaker::{
    CircuitBreaker, CircuitBreakerConfig,
};
use omnishell_orchestrator::domain::error::OrchestratorError;

const SEC: u128 = 1_000_000_000;

#[test]
fn closed_by_default() {
    let mut cb = CircuitBreaker::new(CircuitBreakerConfig::default());
    assert!(cb.check("agent-1", 0).is_ok());
    assert_eq!(cb.failure_count("agent-1"), 0);
}

#[test]
fn opens_at_threshold_and_reports_wait() {
    let mut cb = CircuitBreaker::new(CircuitBreakerConfig::default());
    for _ in 0..4 {
        cb.record_failure("a", 0);
    }
    assert!(cb.check("a", 0).is_ok());
    cb.record_failure("a", 0);
    assert_eq!(cb.failure_count("a"), 5);
    match cb.check("a", SEC / 2) {
        Err(OrchestratorError::CircuitBreakerOpen { agent_id, reason }) => {
            assert_eq!(agent_id, "a");
            assert_eq!(reason, "5 consecutive failures; retry after 59.5s");
        }
        other => panic!("unexpected: {:?}", other),
    }
    // other agents are unaffected
    assert!(cb.check("b", SEC / 2).is_ok());
}

#[test]
fn half_open_after_recovery_then_success_closes() {
    let cfg = CircuitBreakerConfig { failure_threshold: 2, recovery_timeout: 10 * SEC };
    let mut cb = CircuitBreaker::new(cfg);
    cb.record_failure("a", 100 * SEC);
    cb.record_failure("a", 100 * SEC);
    assert!(cb.check("a", 105 * SEC).is_err());
    assert!(cb.check("a", 110 * SEC).is_ok());
    // half-open: the single probe is out, further requests wait for its outcome
    match cb.check("a", 111 * SEC) {
        Err(OrchestratorError::CircuitBreakerOpen { agent_id, reason }) => {
            assert_eq!(agent_id, "a");
            assert_eq!(reason, "2 consecutive failures; waiting for the probe request's outcome");
        }
        other => panic!("unexpected: {:?}", other),
    }
    cb.record_success("a");
    assert_eq!(cb.failure_count("a"), 0);
    assert!(cb.check("a", 110 * SEC).is_ok());
}

#[test]
fn half_open_failure_reopens() {
    let cfg = CircuitBreakerConfig { failure_threshold: 1, recovery_timeout: 10 * SEC };
    let mut cb = CircuitBreaker::new(cfg);
    cb.record_failure("a", 0);
    assert!(cb.check("a", 10 * SEC).is_ok());
    cb.record_failure("a", 20 * SEC);
    match cb.check("a", 25 * SEC) {
        Err(OrchestratorError::CircuitBreakerOpen { reason, .. }) => {
            assert_eq!(reason, "2 consecutive failures; retry after 5s")
        }
        other => panic!("unexpected: {:?}", other),
    }
}

#[test]
fn reset_forgets_failures() {
    let cfg = CircuitBreakerConfig { failure_threshold: 1, recovery_timeout: 10 * SEC };
    let mut cb = CircuitBreaker::new(cfg);
    cb.record_failure("a", 0);
    assert!(cb.check("a", 0).is_err());
    cb.reset("a");
    assert!(cb.check("a", 0).is_ok());
    assert_eq!(cb.failure_count("a"), 0);
}
