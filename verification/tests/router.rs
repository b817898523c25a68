use omnishell_orchestrator::application::router::CapabilityRouter;
use omnishell_orchestrator::domain::agent::{AgentCapability, AgentInfo};
use omnishell_orchestrator::domain::error::OrchestratorError;

fn fake_agent(id: &str, caps: &[&str], priority: u32, enabled: bool) -> AgentInfo {
    AgentInfo {
        id: id.to_string(),
        display_name: id.to_string(),
        capabilities: caps.iter().map(|c| AgentCapability::new(c)).collect(),
        max_concurrency: 2,
        default_timeout: 60_000_000_000,
        enabled,
        priority,
    }
}

#[test]
fn router_test_route_selects_highest_priority() {
    let mut router = CapabilityRouter::new();
    router.register(fake_agent("low-pri", &["code-gen"], 1, true));
    router.register(fake_agent("high-pri", &["code-gen"], 10, true));
    let result = router.route("code-gen").expect("should find agent");
    assert_eq!(result, "high-pri");
}

#[test]
fn router_test_route_skips_disabled() {
    let mut router = CapabilityRouter::new();
    router.register(fake_agent("disabled", &["code-gen"], 100, false));
    router.register(fake_agent("enabled", &["code-gen"], 1, true));
    let result = router.route("code-gen").expect("should find agent");
    assert_eq!(result, "enabled");
}

#[test]
fn router_test_route_no_match() {
    let router = CapabilityRouter::new();
    let result = router.route("nonexistent");
    assert!(result.is_err());
}

#[test]
fn test_all_matching_sorted_by_priority() {
    let mut router = CapabilityRouter::new();
    router.register(fake_agent("a", &["code-gen"], 5, true));
    router.register(fake_agent("b", &["code-gen"], 10, true));
    router.register(fake_agent("c", &["code-gen"], 1, true));
    let result = router.all_matching("code-gen");
    assert_eq!(result, vec!["b", "a", "c"]);
}

#[test]
fn tests_test_route_selects_highest_priority() {
    let mut router = CapabilityRouter::new();
    router.register(fake_agent("low", &["code-gen"], 1, true));
    router.register(fake_agent("high", &["code-gen"], 10, true));
    assert_eq!(router.route("code-gen").unwrap(), "high");
}

#[test]
fn tests_test_route_skips_disabled() {
    let mut router = CapabilityRouter::new();
    router.register(fake_agent("off", &["code-gen"], 100, false));
    router.register(fake_agent("on", &["code-gen"], 1, true));
    assert_eq!(router.route("code-gen").unwrap(), "on");
}

#[test]
fn tests_test_route_no_match() {
    let router = CapabilityRouter::new();
    assert!(router.route("nonexistent").is_err());
}

#[test]
fn test_all_matching_sorted() {
    let mut router = CapabilityRouter::new();
    router.register(fake_agent("a", &["cg"], 5, true));
    router.register(fake_agent("b", &["cg"], 10, true));
    router.register(fake_agent("c", &["cg"], 1, true));
    assert_eq!(router.all_matching("cg"), vec!["b", "a", "c"]);
}

#[test]
fn route_error_names_the_capability() {
    let mut router = CapabilityRouter::new();
    router.register(fake_agent("x", &["other"], 1, true));
    match router.route("summarization") {
        Err(OrchestratorError::InvalidConfig(m)) => {
            assert_eq!(m, "no enabled agent found for capability 'summarization'")
        }
        other => panic!("unexpected: {:?}", other),
    }
}

#[test]
fn route_ties_keep_first_registered_and_all_matching_is_stable() {
    let mut router = CapabilityRouter::new();
    router.register(fake_agent("first", &["cg"], 3, true));
    router.register(fake_agent("second", &["cg"], 3, true));
    router.register(fake_agent("third", &["cg", "x"], 7, true));
    router.register(fake_agent("off", &["cg"], 9, false));
    assert_eq!(router.route("cg").unwrap(), "third");
    assert_eq!(router.all_matching("cg"), vec!["third", "first", "second"]);
    assert_eq!(router.all_matching("x"), vec!["third"]);
    assert!(router.all_matching("none").is_empty());
}

#[test]
fn register_replaces_and_unregister_removes() {
    let mut router = CapabilityRouter::new();
    router.register(fake_agent("a", &["cg"], 1, true));
    router.register(fake_agent("b", &["cg"], 2, true));
    router.register(fake_agent("a", &["cg"], 5, false));
    let infos = router.all_agent_info();
    assert_eq!(infos.len(), 2);
    assert_eq!(infos[0].id, "a");
    assert_eq!(infos[0].priority, 5);
    assert!(!infos[0].enabled);
    assert_eq!(router.route("cg").unwrap(), "b");
    assert_eq!(router.active_agents(), vec!["b".to_string()]);
    assert!(router.get_agent("a").is_some());
    router.unregister("a");
    assert!(router.get_agent("a").is_none());
    assert_eq!(router.all_agent_info().len(), 1);
}

#[test]
fn orchestrator_service_test_orchestrator_active_agents() {
    let mut router = CapabilityRouter::new();
    router.register(fake_agent("test-agent", &["test"], 1, true));
    assert_eq!(router.active_agents(), vec!["test-agent"]);
}

#[test]
fn tests_test_orchestrator_active_agents() {
    let mut router = CapabilityRouter::new();
    router.register(fake_agent("test-agent", &["test"], 1, true));
    router.register(fake_agent("idle-agent", &["test"], 1, false));
    assert_eq!(router.active_agents(), vec!["test-agent"]);
}
