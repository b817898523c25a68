use omnishell_orchestrator::application::aggregator::ConcatAggregator;
use omnishell_orchestrator::application::orchestrator_service::{
    pipeline_step, worker_step, AttemptResult, CacheRead, PipelineAction, PipelineEvent, PipelineStage,
    StoreResult, SubtaskOutcome, WorkerAction, WorkerEvent, WorkerJob, WorkerStage,
};
use omnishell_orchestrator::domain::agent::{AgentCapability, AgentResponse};
use omnishell_orchestrator::domain::context::MessageRole;
use omnishell_orchestrator::domain::error::{OrchestratorError, Severity};
use omnishell_orchestrator::domain::orchestrator::UserRequest;
use omnishell_orchestrator::domain::policy::PolicyCheckResult;
use omnishell_orchestrator::domain::task::{ExecutionPlan, SubTask, TaskStatus, TimeoutPolicy};
use omnishell_orchestrator::domain::token::SimpleTokenCounter;

fn request(max_tokens: Option<u64>) -> UserRequest {
    UserRequest {
        id: "req-1".to_string(),
        session_id: "session-1".to_string(),
        message: "Write hello world".to_string(),
        preferred_capability: None,
        max_tokens,
    }
}

fn subtask(id: &str, capability: &str) -> SubTask {
    SubTask {
        id: id.to_string(),
        parent_request_id: "req-1".to_string(),
        description: "d".to_string(),
        required_capability: AgentCapability::new(capability),
        prompt: "Write hello world".to_string(),
        max_tokens: None,
        timeout: None,
        status: TaskStatus::Pending,
        depends_on: Vec::new(),
        retry_count: 0,
        assigned_agent: None,
    }
}

fn answer(agent: &str, content: &str) -> AgentResponse {
    AgentResponse {
        request_id: "sub-a".to_string(),
        agent_id: agent.to_string(),
        content: content.to_string(),
        structured_data: None,
        estimated_tokens: 3,
        duration: 1_000,
        cache_hit: false,
        warnings: Vec::new(),
    }
}

fn step(
    req: &UserRequest,
    stage: PipelineStage,
    event: PipelineEvent,
    now: i64,
) -> (PipelineStage, PipelineAction) {
    pipeline_step(&SimpleTokenCounter, req, stage, event, now)
}

#[test]
fn pipeline_runs_request_to_answer() {
    let req = request(Some(10_000));
    let (s, a) = step(&req, PipelineStage::Start, PipelineEvent::Begin, 1);
    assert!(matches!(a, PipelineAction::CheckPolicy));
    let (s, a) = step(&req, s, PipelineEvent::PolicyChecked(Ok(PolicyCheckResult::pass())), 1);
    assert!(matches!(a, PipelineAction::EstimateTokens));
    let (s, a) = step(&req, s, PipelineEvent::TokensEstimated(Ok(0)), 100);
    match a {
        PipelineAction::AddMessage(m) => {
            assert_eq!(m.role, MessageRole::User);
            assert_eq!(m.content, "Write hello world");
            assert_eq!(m.token_estimate, 5);
            assert_eq!(m.timestamp, 100);
        }
        other => panic!("unexpected: {:?}", other),
    }
    let (s, a) = step(&req, s, PipelineEvent::MessageAdded(Ok(())), 1);
    assert!(matches!(a, PipelineAction::Plan));
    let plan = ExecutionPlan {
        request_id: "req-1".to_string(),
        subtasks: vec![subtask("sub-a", "code-generation"), subtask("sub-b", "summarization")],
        estimated_total_tokens: 5,
    };
    let (s, a) = step(&req, s, PipelineEvent::Planned(Ok(plan)), 1);
    match a {
        PipelineAction::Route(c) => assert_eq!(c, "code-generation"),
        other => panic!("unexpected: {:?}", other),
    }
    let (s, a) = step(&req, s, PipelineEvent::Routed(Ok("agent-1".to_string())), 1);
    match a {
        PipelineAction::LookUpAgent(id) => assert_eq!(id, "agent-1"),
        other => panic!("unexpected: {:?}", other),
    }
    let (s, a) = step(&req, s, PipelineEvent::AgentLookedUp(true), 1);
    match a {
        PipelineAction::Dispatch { index, agent_id } => assert_eq!((index, agent_id.as_str()), (0, "agent-1")),
        other => panic!("unexpected: {:?}", other),
    }
    let (s, a) = step(&req, s, PipelineEvent::Dispatched, 1);
    match a {
        PipelineAction::Route(c) => assert_eq!(c, "summarization"),
        other => panic!("unexpected: {:?}", other),
    }
    let (s, _) = step(&req, s, PipelineEvent::Routed(Ok("agent-2".to_string())), 1);
    let (s, a) = step(&req, s, PipelineEvent::AgentLookedUp(true), 1);
    assert!(matches!(a, PipelineAction::Dispatch { index: 1, .. }));
    let (s, a) = step(&req, s, PipelineEvent::Dispatched, 1);
    assert!(matches!(a, PipelineAction::Collect(0)));
    let (s, a) = step(&req, s, PipelineEvent::Collected(SubtaskOutcome::Answered(answer("agent-1", "Hello"))), 1);
    assert!(matches!(a, PipelineAction::Collect(1)));
    let failure = OrchestratorError::agent("agent-2", "boom");
    let (s, a) = step(&req, s, PipelineEvent::Collected(SubtaskOutcome::Failed(failure)), 1);
    let responses = match a {
        PipelineAction::Aggregate(rs) => rs,
        other => panic!("unexpected: {:?}", other),
    };
    assert_eq!(responses.len(), 2);
    assert_eq!(responses[0].content, "Hello");
    assert_eq!(responses[1].request_id, "sub-b");
    assert_eq!(responses[1].agent_id, "unknown");
    assert_eq!(responses[1].content, "[ERROR] agent error [agent-2]: boom");
    let aggregate = ConcatAggregator::new(" | ").aggregate("req-1", responses).unwrap();
    let (s, a) = step(&req, s, PipelineEvent::Aggregated(Ok(aggregate)), 200);
    match a {
        PipelineAction::AddMessage(m) => {
            assert_eq!(m.role, MessageRole::Assistant);
            assert_eq!(m.content, "Hello | [ERROR] agent error [agent-2]: boom");
            assert_eq!(m.timestamp, 200);
        }
        other => panic!("unexpected: {:?}", other),
    }
    let (s, a) = step(&req, s, PipelineEvent::MessageAdded(Ok(())), 1);
    assert!(matches!(a, PipelineAction::Trim));
    let (s, a) = step(&req, s, PipelineEvent::Trimmed(Ok(())), 1);
    match a {
        PipelineAction::Finish(Ok(agg)) => {
            assert_eq!(agg.request_id, "req-1");
            assert_eq!(agg.worker_results.len(), 2);
        }
        other => panic!("unexpected: {:?}", other),
    }
    assert!(matches!(s, PipelineStage::Finished));
    let (s, a) = step(&req, s, PipelineEvent::Dispatched, 1);
    assert!(matches!((s, a), (PipelineStage::Finished, PipelineAction::Wait)));
}

#[test]
fn pipeline_refused_input_finishes_before_recording() {
    let req = request(None);
    let (s, _) = step(&req, PipelineStage::Start, PipelineEvent::Begin, 1);
    let refused = PolicyCheckResult::fail(Severity::Critical, "prompt injection detected");
    let (s, a) = step(&req, s, PipelineEvent::PolicyChecked(Ok(refused)), 1);
    match a {
        PipelineAction::Finish(Err(OrchestratorError::PolicyViolation(m))) => {
            assert_eq!(m, "prompt injection detected")
        }
        other => panic!("unexpected: {:?}", other),
    }
    assert!(matches!(s, PipelineStage::Finished));
}

#[test]
fn pipeline_budget_exceeded_finishes() {
    let req = request(Some(10));
    let (s, _) = step(&req, PipelineStage::Start, PipelineEvent::Begin, 1);
    let (s, _) = step(&req, s, PipelineEvent::PolicyChecked(Ok(PolicyCheckResult::pass())), 1);
    let (s, a) = step(&req, s, PipelineEvent::TokensEstimated(Ok(11)), 1);
    match a {
        PipelineAction::Finish(Err(OrchestratorError::TokenBudgetExceeded { used, limit })) => {
            assert_eq!((used, limit), (11, 10))
        }
        other => panic!("unexpected: {:?}", other),
    }
    assert!(matches!(s, PipelineStage::Finished));
}

#[test]
fn pipeline_routing_failure_and_unknown_agent_finish() {
    let req = request(None);
    let plan = || ExecutionPlan {
        request_id: "req-1".to_string(),
        subtasks: vec![subtask("sub-a", "code-generation")],
        estimated_total_tokens: 5,
    };
    let (s, _) = step(&req, PipelineStage::Planning, PipelineEvent::Planned(Ok(plan())), 1);
    let e = OrchestratorError::InvalidConfig("no enabled agent found for capability 'code-generation'".to_string());
    let (s, a) = step(&req, s, PipelineEvent::Routed(Err(e)), 1);
    match a {
        PipelineAction::Finish(Err(OrchestratorError::InvalidConfig(m))) => {
            assert_eq!(m, "no enabled agent found for capability 'code-generation'")
        }
        other => panic!("unexpected: {:?}", other),
    }
    assert!(matches!(s, PipelineStage::Finished));

    let (s, _) = step(&req, PipelineStage::Planning, PipelineEvent::Planned(Ok(plan())), 1);
    let (s, _) = step(&req, s, PipelineEvent::Routed(Ok("ghost".to_string())), 1);
    let (_, a) = step(&req, s, PipelineEvent::AgentLookedUp(false), 1);
    match a {
        PipelineAction::Finish(Err(OrchestratorError::AgentError { agent_id, message, source })) => {
            assert_eq!(agent_id, "ghost");
            assert_eq!(message, "agent registered but not found");
            assert!(source.is_none());
        }
        other => panic!("unexpected: {:?}", other),
    }
}

#[test]
fn pipeline_empty_plan_is_aggregated_at_once() {
    let req = request(None);
    let plan = ExecutionPlan { request_id: "req-1".to_string(), subtasks: Vec::new(), estimated_total_tokens: 0 };
    let (s, a) = step(&req, PipelineStage::Planning, PipelineEvent::Planned(Ok(plan)), 1);
    match a {
        PipelineAction::Aggregate(rs) => assert!(rs.is_empty()),
        other => panic!("unexpected: {:?}", other),
    }
    assert!(matches!(s, PipelineStage::Aggregating));
    let e = OrchestratorError::Timeout { duration_ms: 5, context: "ctx".to_string() };
    let (s, a) = step(&req, s, PipelineEvent::MessageAdded(Err(e)), 1);
    assert!(matches!(a, PipelineAction::Wait));
    assert!(matches!(s, PipelineStage::Aggregating));
}

#[test]
fn pipeline_panicked_worker_stands_as_panic_response() {
    let req = request(None);
    let plan = ExecutionPlan {
        request_id: "req-1".to_string(),
        subtasks: vec![subtask("sub-a", "general")],
        estimated_total_tokens: 0,
    };
    let stage = PipelineStage::Collecting { plan, responses: Vec::new() };
    let (_, a) = step(&req, stage, PipelineEvent::Collected(SubtaskOutcome::Panicked("task 3 panicked".to_string())), 1);
    match a {
        PipelineAction::Aggregate(rs) => {
            assert_eq!(rs.len(), 1);
            assert_eq!(rs[0].content, "[PANIC] task join error: task 3 panicked");
            assert_eq!(rs[0].agent_id, "unknown");
        }
        other => panic!("unexpected: {:?}", other),
    }
}

fn job(in_service: bool, max_retries: u32) -> WorkerJob {
    let mut st = subtask("sub-a", "general");
    st.timeout = Some(2_500_000_000);
    WorkerJob {
        subtask: st,
        agent_id: "agent-1".to_string(),
        config_version: "v1".to_string(),
        max_retries,
        timeout_policy: TimeoutPolicy::default(),
        in_service,
    }
}

fn to_sending(j: &WorkerJob, prompt: Result<String, OrchestratorError>) -> WorkerStage {
    let (s, a) = worker_step(j, WorkerStage::Start, WorkerEvent::Begin);
    assert!(matches!(a, WorkerAction::CheckCircuit));
    let (s, a) = worker_step(j, s, WorkerEvent::CircuitChecked(Ok(())));
    assert!(matches!(a, WorkerAction::ReadCache));
    let (s, a) = worker_step(j, s, WorkerEvent::CacheLookedUp(CacheRead::Absent));
    let s = if j.in_service {
        assert!(matches!(a, WorkerAction::BuildInput));
        let (s, a) = worker_step(j, s, WorkerEvent::InputBuilt(Ok("session input".to_string())));
        assert!(matches!(a, WorkerAction::BuildPrompt));
        s
    } else {
        assert!(matches!(a, WorkerAction::BuildPrompt));
        s
    };
    let (s, a) = worker_step(j, s, WorkerEvent::PromptBuilt(prompt));
    match a {
        WorkerAction::Send { timeout } => assert_eq!(timeout, 2_500_000_000),
        other => panic!("unexpected: {:?}", other),
    }
    s
}

#[test]
fn worker_answers_records_stores_and_returns() {
    let j = job(false, 3);
    let s = to_sending(&j, Ok("You are a helpful AI assistant.".to_string()));
    match &s {
        WorkerStage::Attempting { key, request, attempt } => {
            assert_eq!(*attempt, 0);
            assert_eq!(key.as_str().len(), 64);
            assert_eq!(request.request_id, "sub-a");
            assert_eq!(request.system_prompt, "You are a helpful AI assistant.");
            assert_eq!(request.context, "");
        }
        other => panic!("unexpected: {:?}", other),
    }
    let (s, a) = worker_step(&j, s, WorkerEvent::Attempted(AttemptResult::Answered(answer("agent-1", "Hi"))));
    assert!(matches!(a, WorkerAction::RecordSuccess));
    let (s, a) = worker_step(&j, s, WorkerEvent::Recorded);
    assert!(matches!(a, WorkerAction::Store));
    let e = OrchestratorError::CacheError("full".to_string());
    let (s, a) = worker_step(&j, s, WorkerEvent::Stored(StoreResult::Failed(e)));
    match a {
        WorkerAction::Finish(Ok(r)) => {
            assert_eq!(r.content, "Hi");
            assert!(!r.cache_hit);
        }
        other => panic!("unexpected: {:?}", other),
    }
    assert!(matches!(s, WorkerStage::Finished));
}

#[test]
fn worker_serves_cached_response_as_hit() {
    let j = job(false, 3);
    let (s, _) = worker_step(&j, WorkerStage::Start, WorkerEvent::Begin);
    let (s, _) = worker_step(&j, s, WorkerEvent::CircuitChecked(Ok(())));
    let (_, a) = worker_step(&j, s, WorkerEvent::CacheLookedUp(CacheRead::Found(answer("agent-1", "cached"))));
    match a {
        WorkerAction::Finish(Ok(r)) => {
            assert_eq!(r.content, "cached");
            assert!(r.cache_hit);
        }
        other => panic!("unexpected: {:?}", other),
    }
}

#[test]
fn worker_unreadable_entry_is_a_miss_only_when_detached() {
    let detached = job(false, 0);
    let (s, _) = worker_step(&detached, WorkerStage::Start, WorkerEvent::Begin);
    let (s, _) = worker_step(&detached, s, WorkerEvent::CircuitChecked(Ok(())));
    let (_, a) = worker_step(&detached, s, WorkerEvent::CacheLookedUp(CacheRead::Unreadable("bad json".to_string())));
    assert!(matches!(a, WorkerAction::BuildPrompt));

    let service = job(true, 0);
    let (s, _) = worker_step(&service, WorkerStage::Start, WorkerEvent::Begin);
    let (s, _) = worker_step(&service, s, WorkerEvent::CircuitChecked(Ok(())));
    let (_, a) = worker_step(&service, s, WorkerEvent::CacheLookedUp(CacheRead::Unreadable("bad json".to_string())));
    match a {
        WorkerAction::Finish(Err(OrchestratorError::CacheError(m))) => {
            assert_eq!(m, "failed to deserialize cached response: bad json")
        }
        other => panic!("unexpected: {:?}", other),
    }
}

#[test]
fn worker_open_circuit_ends_run() {
    let j = job(false, 3);
    let (s, _) = worker_step(&j, WorkerStage::Start, WorkerEvent::Begin);
    let e = OrchestratorError::CircuitBreakerOpen { agent_id: "agent-1".to_string(), reason: "r".to_string() };
    let (s, a) = worker_step(&j, s, WorkerEvent::CircuitChecked(Err(e)));
    assert!(matches!(a, WorkerAction::Finish(Err(OrchestratorError::CircuitBreakerOpen { .. }))));
    assert!(matches!(s, WorkerStage::Finished));
}

#[test]
fn worker_retries_with_backoff_then_reports_timeout() {
    let j = job(true, 1);
    let s = to_sending(&j, Ok("sys".to_string()));
    let (s, a) = worker_step(&j, s, WorkerEvent::Attempted(AttemptResult::TimedOut));
    assert!(matches!(a, WorkerAction::RecordFailure));
    let (s, a) = worker_step(&j, s, WorkerEvent::Recorded);
    assert!(matches!(a, WorkerAction::Sleep { attempt: 1 }));
    let (s, a) = worker_step(&j, s, WorkerEvent::Slept);
    assert!(matches!(a, WorkerAction::Send { timeout: 2_500_000_000 }));
    let (s, a) = worker_step(&j, s, WorkerEvent::Attempted(AttemptResult::TimedOut));
    assert!(matches!(a, WorkerAction::RecordFailure));
    let (s, a) = worker_step(&j, s, WorkerEvent::Recorded);
    match a {
        WorkerAction::Finish(Err(OrchestratorError::Timeout { duration_ms, context })) => {
            assert_eq!(duration_ms, 2500);
            assert_eq!(context, "agent agent-1, subtask sub-a");
        }
        other => panic!("unexpected: {:?}", other),
    }
    assert!(matches!(s, WorkerStage::Finished));
}

#[test]
fn worker_detached_failure_is_returned_after_last_attempt() {
    let j = job(false, 0);
    let s = to_sending(&j, Err(OrchestratorError::IoError("down".to_string())));
    match &s {
        WorkerStage::Attempting { request, .. } => assert_eq!(request.system_prompt, ""),
        other => panic!("unexpected: {:?}", other),
    }
    let e = OrchestratorError::agent("agent-1", "boom");
    let (s, _) = worker_step(&j, s, WorkerEvent::Attempted(AttemptResult::Failed(e)));
    let (_, a) = worker_step(&j, s, WorkerEvent::Recorded);
    match a {
        WorkerAction::Finish(Err(OrchestratorError::AgentError { message, .. })) => assert_eq!(message, "boom"),
        other => panic!("unexpected: {:?}", other),
    }
}
