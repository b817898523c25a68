//! The decisions of the orchestrator service's request pipeline.
//!
//! The service validates a request, plans it, routes and dispatches the
//! subtasks to agents (with caching, retries, timeouts and circuit
//! breaking), aggregates the responses and updates the session context.
//! The waiting and the calls to agents, caches and locks are made by its
//! host; every choice along the way is made here.

use vstd::prelude::*;
use vstd::string::*;

use crate::domain::agent::{AgentRequest, AgentResponse};
use crate::domain::cache::{cache_key_material, hex_lower, sha256, CacheEntry, CacheKey};
use crate::domain::context::{Message, MessageRole};
use crate::domain::error::{error_text, OrchestratorError};
use crate::domain::orchestrator::{AggregateResponse, UserRequest};
use crate::domain::policy::PolicyCheckResult;
use crate::domain::task::{ExecutionPlan, SubTask, TimeoutPolicy};
use crate::domain::token::TokenCounter;
use crate::text::{byte_len, str_byte_len};

verus! {

// ---------------------------------------------------------------------------
// Building the service
// ---------------------------------------------------------------------------

/// Name of the first required component that is missing, in the order the
/// builder checks them (none if all are present).
pub open spec fn first_missing_component(
    planner: bool,
    router: bool,
    aggregator: bool,
    context_manager: bool,
    cache: bool,
    token_counter: bool,
    policy_guard: bool,
) -> Option<Seq<char>> {
    if !planner {
        Some("planner"@)
    } else if !router {
        Some("router"@)
    } else if !aggregator {
        Some("aggregator"@)
    } else if !context_manager {
        Some("context_manager"@)
    } else if !cache {
        Some("cache"@)
    } else if !token_counter {
        Some("token_counter"@)
    } else if !policy_guard {
        Some("policy_guard"@)
    } else {
        None
    }
}

/// Checks that the builder was given every required component (the circuit
/// breaker is optional); fails with `InvalidConfig("<name> is required but
/// not set")` for the first one missing.
pub fn check_required_components(
    planner: bool,
    router: bool,
    aggregator: bool,
    context_manager: bool,
    cache: bool,
    token_counter: bool,
    policy_guard: bool,
) -> (r: Result<(), OrchestratorError>)
    ensures
        ({
            let missing = first_missing_component(
                planner,
                router,
                aggregator,
                context_manager,
                cache,
                token_counter,
                policy_guard,
            );
            &&& missing is None <==> r is Ok
            &&& r is Ok <==> (planner && router && aggregator && context_manager && cache
                && token_counter && policy_guard)
            &&& missing matches Some(name) ==> (r matches Err(OrchestratorError::InvalidConfig(m))
                && m@ == name + " is required but not set"@)
        }),
{
    let name = if !planner {
        "planner"
    } else if !router {
        "router"
    } else if !aggregator {
        "aggregator"
    } else if !context_manager {
        "context_manager"
    } else if !cache {
        "cache"
    } else if !token_counter {
        "token_counter"
    } else if !policy_guard {
        "policy_guard"
    } else {
        return Ok(());
    };
    let mut m = String::from_str(name);
    m.append(" is required but not set");
    Err(OrchestratorError::InvalidConfig(m))
}

/// The service is built only from a complete set of components: no
/// required component is reported missing exactly when every one of them
/// is given.
pub proof fn law_build_requires_every_component(
    planner: bool,
    router: bool,
    aggregator: bool,
    context_manager: bool,
    cache: bool,
    token_counter: bool,
    policy_guard: bool,
)
    ensures
        first_missing_component(planner, router, aggregator, context_manager, cache, token_counter, policy_guard)
            is None <==> (planner && router && aggregator && context_manager && cache && token_counter
            && policy_guard),
{
}

// ---------------------------------------------------------------------------
// Admitting a request
// ---------------------------------------------------------------------------

/// A request whose input the policy guard did not allow is refused with
/// `PolicyViolation`, carrying the guard's reason.
pub fn check_policy_outcome(result: &PolicyCheckResult) -> (r: Result<(), OrchestratorError>)
    ensures
        result.allowed <==> r is Ok,
        !result.allowed ==> (r matches Err(OrchestratorError::PolicyViolation(m)) && m@
            == result.reason@),
{
    if !result.allowed {
        return Err(OrchestratorError::PolicyViolation(result.reason.clone()));
    }
    Ok(())
}

/// A request with a token limit is refused with `TokenBudgetExceeded` when
/// the session already holds more tokens than that limit.
pub fn check_token_budget(current_tokens: u64, max_tokens: Option<u64>) -> (r: Result<
    (),
    OrchestratorError,
>)
    ensures
        r is Err <==> (max_tokens matches Some(max) && current_tokens > max),
        r is Err ==> (r matches Err(OrchestratorError::TokenBudgetExceeded { used, limit }) && used
            == current_tokens && Some(limit) == max_tokens),
{
    if let Some(max) = max_tokens {
        if current_tokens > max {
            return Err(OrchestratorError::TokenBudgetExceeded { used: current_tokens, limit: max });
        }
    }
    Ok(())
}

/// The message recorded in the session for the user's request.
pub fn user_message<C: TokenCounter + ?Sized>(counter: &C, request: &UserRequest, timestamp: i64) -> (m:
    Message)
    ensures
        m.role == MessageRole::User,
        m.content@ == request.message@,
        m.token_estimate == counter.token_estimate(request.message@),
        m.timestamp == timestamp,
{
    Message {
        role: MessageRole::User,
        content: request.message.clone(),
        token_estimate: counter.count_tokens(request.message.as_str()),
        timestamp,
    }
}

/// The message recorded in the session for the aggregated answer.
pub fn assistant_message<C: TokenCounter + ?Sized>(
    counter: &C,
    aggregate: &AggregateResponse,
    timestamp: i64,
) -> (m: Message)
    ensures
        m.role == MessageRole::Assistant,
        m.content@ == aggregate.content@,
        m.token_estimate == counter.token_estimate(aggregate.content@),
        m.timestamp == timestamp,
{
    Message {
        role: MessageRole::Assistant,
        content: aggregate.content.clone(),
        token_estimate: counter.count_tokens(aggregate.content.as_str()),
        timestamp,
    }
}

// ---------------------------------------------------------------------------
// Running a subtask
// ---------------------------------------------------------------------------

/// The cache key of a subtask run by an agent: its prompt, no context, the
/// agent and the configuration version.
pub fn subtask_cache_key(subtask: &SubTask, agent_id: &str, config_version: &str) -> (k: CacheKey)
    ensures
        k@ == hex_lower(
            sha256(cache_key_material(subtask.prompt@, Seq::empty(), agent_id@, config_version@)),
        ),
{
    proof {
        reveal_strlit("");
    }
    CacheKey::compute(subtask.prompt.as_str(), "", agent_id, config_version)
}

/// A cached response is returned marked as a cache hit.
pub fn served_from_cache(response: AgentResponse) -> (r: AgentResponse)
    ensures
        r == (AgentResponse { cache_hit: true, ..response }),
{
    AgentResponse { cache_hit: true, ..response }
}

/// The timeout a subtask runs under: its own, or the policy's default.
pub fn subtask_timeout(subtask: &SubTask, policy: &TimeoutPolicy) -> (t: u128)
    ensures
        t == match subtask.timeout {
            Some(t) => t,
            None => policy.default_timeout,
        },
{
    match subtask.timeout {
        Some(t) => t,
        None => policy.default_timeout,
    }
}

/// The request sent to the agent for a subtask: its id and prompt, the
/// session's system prompt, the given context, no tools, and its token limit.
pub fn agent_request_for(subtask: &SubTask, system_prompt: String, context: String) -> (r:
    AgentRequest)
    ensures
        r.request_id@ == subtask.id@,
        r.system_prompt == system_prompt,
        r.user_prompt@ == subtask.prompt@,
        r.context == context,
        r.allowed_tools@.len() == 0,
        r.max_response_tokens == subtask.max_tokens,
{
    AgentRequest {
        request_id: subtask.id.clone(),
        system_prompt,
        user_prompt: subtask.prompt.clone(),
        context,
        allowed_tools: Vec::new(),
        max_response_tokens: subtask.max_tokens,
    }
}

/// The cache entry stored for a fresh response, given its serialized form.
pub fn cache_entry_for(serialized: String, response: &AgentResponse, created_at: i64) -> (e:
    CacheEntry)
    ensures
        e.value == serialized,
        e.created_at == created_at,
        e.hit_count == 0,
        e.byte_size as nat == byte_len(response.content@),
{
    CacheEntry {
        value: serialized,
        created_at,
        hit_count: 0,
        byte_size: str_byte_len(response.content.as_str()),
    }
}

/// How one attempt to run a subtask on an agent ended.
#[derive(Debug)]
pub enum AttemptOutcome {
    /// The agent answered.
    Succeeded,
    /// The agent failed with this error.
    Failed(OrchestratorError),
    /// The agent did not answer within the timeout.
    TimedOut,
}

/// What to do after an attempt.
#[derive(Debug)]
pub enum WorkerStep {
    /// The subtask is done; the response is the agent's.
    Done,
    /// Wait, then make attempt number `attempt`.
    Retry { attempt: u32 },
    /// No attempts are left: the subtask fails with this error.
    GiveUp(OrchestratorError),
}

/// What a timeout is reported against: the agent, and the subtask when named.
pub open spec fn timeout_context(agent_id: Seq<char>, subtask_id: Option<Seq<char>>) -> Seq<char> {
    match subtask_id {
        Some(id) => "agent "@ + agent_id + ", subtask "@ + id,
        None => "agent "@ + agent_id,
    }
}

/// The error of an attempt that timed out after `timeout` nanoseconds.
pub open spec fn timeout_error_holds(
    e: OrchestratorError,
    agent_id: Seq<char>,
    subtask_id: Option<Seq<char>>,
    timeout: u128,
) -> bool {
    e matches OrchestratorError::Timeout { duration_ms, context } && duration_ms == (timeout
        / 1_000_000) as u64 && context@ == timeout_context(agent_id, subtask_id)
}

/// Decides what follows attempt number `attempt` (counted from zero) of a
/// subtask allowed `max_retries` retries: success finishes; a failure or a
/// timeout is retried while retries are left, and otherwise ends the
/// subtask with that attempt's error (for a timeout, `Timeout` with the
/// whole milliseconds waited, naming the agent and, if given, the subtask).
pub fn after_attempt(
    max_retries: u32,
    attempt: u32,
    outcome: AttemptOutcome,
    agent_id: &str,
    subtask_id: Option<&str>,
    timeout: u128,
) -> (s: WorkerStep)
    requires
        attempt <= max_retries,
    ensures
        outcome is Succeeded <==> s is Done,
        !(outcome is Succeeded) && attempt < max_retries ==> (s matches WorkerStep::Retry { attempt: a }
            && a == attempt + 1),
        !(outcome is Succeeded) && attempt == max_retries ==> s is GiveUp,
        outcome matches AttemptOutcome::Failed(e) ==> (attempt == max_retries ==> (s matches WorkerStep::GiveUp(
            g,
        ) && g == e)),
        (outcome is TimedOut && attempt == max_retries) ==> (s matches WorkerStep::GiveUp(g)
            && timeout_error_holds(
            g,
            agent_id@,
            match subtask_id {
                Some(id) => Some(id@),
                None => None,
            },
            timeout,
        )),
{
    match outcome {
        AttemptOutcome::Succeeded => WorkerStep::Done,
        AttemptOutcome::Failed(e) => {
            if attempt < max_retries {
                WorkerStep::Retry { attempt: attempt + 1 }
            } else {
                WorkerStep::GiveUp(e)
            }
        },
        AttemptOutcome::TimedOut => {
            if attempt < max_retries {
                WorkerStep::Retry { attempt: attempt + 1 }
            } else {
                #[verifier::truncate]
                let duration_ms = (timeout / 1_000_000) as u64;
                let mut context = String::from_str("agent ");
                context.append(agent_id);
                if let Some(id) = subtask_id {
                    context.append(", subtask ");
                    context.append(id);
                }
                WorkerStep::GiveUp(OrchestratorError::Timeout { duration_ms, context })
            }
        },
    }
}

/// Whether attempt number `attempt` may be followed by a retry.
pub open spec fn retries_left(max_retries: u32, attempt: u32) -> bool {
    attempt < max_retries
}

/// A subtask is attempted at most `max_retries + 1` times: every retry moves
/// to the next attempt number, and after attempt `max_retries` the worker
/// gives up.
pub proof fn law_attempts_are_bounded(max_retries: u32, attempt: u32)
    requires
        attempt <= max_retries,
    ensures
        retries_left(max_retries, attempt) ==> attempt + 1 <= max_retries,
        !retries_left(max_retries, attempt) ==> attempt == max_retries,
{
}

// ---------------------------------------------------------------------------
// Collecting the results
// ---------------------------------------------------------------------------

/// `r` is the response standing for `subtask`, which failed with `error`:
/// `[ERROR] <error>`, attributed to the subtask's agent (or `unknown`), with
/// the error as its one warning.
pub open spec fn is_failed_response(r: AgentResponse, subtask: SubTask, error: OrchestratorError) -> bool {
    &&& r.request_id@ == subtask.id@
    &&& r.agent_id@ == match subtask.assigned_agent {
        Some(a) => a@,
        None => "unknown"@,
    }
    &&& r.content@ == "[ERROR] "@ + error_text(error)
    &&& r.structured_data is None
    &&& r.estimated_tokens == 0
    &&& r.duration == 0
    &&& !r.cache_hit
    &&& r.warnings@.map_values(|w: String| w@) == seq![error_text(error)]
}

/// `r` is the response standing for `subtask`, whose task panicked with
/// message `detail`.
pub open spec fn is_panicked_response(r: AgentResponse, subtask: SubTask, detail: Seq<char>) -> bool {
    &&& r.request_id@ == subtask.id@
    &&& r.agent_id@ == "unknown"@
    &&& r.content@ == "[PANIC] task join error: "@ + detail
    &&& r.structured_data is None
    &&& r.estimated_tokens == 0
    &&& r.duration == 0
    &&& !r.cache_hit
    &&& r.warnings@.map_values(|w: String| w@) == seq![detail]
}

/// The response standing for a subtask that failed with `error`.
pub fn failed_subtask_response(subtask: &SubTask, error: &OrchestratorError) -> (r: AgentResponse)
    ensures
        is_failed_response(r, *subtask, *error),
{
    let text = error.to_string();
    let mut content = String::from_str("[ERROR] ");
    content.append(text.as_str());
    let agent_id = match &subtask.assigned_agent {
        Some(a) => a.clone(),
        None => String::from_str("unknown"),
    };
    let mut warnings: Vec<String> = Vec::new();
    warnings.push(text);
    assert(warnings@.map_values(|w: String| w@) =~= seq![error_text(*error)]);
    AgentResponse {
        request_id: subtask.id.clone(),
        agent_id,
        content,
        structured_data: None,
        estimated_tokens: 0,
        duration: 0,
        cache_hit: false,
        warnings,
    }
}

/// The response standing for a subtask whose task panicked, given the
/// join error's message.
pub fn panicked_subtask_response(subtask: &SubTask, detail: &str) -> (r: AgentResponse)
    ensures
        is_panicked_response(r, *subtask, detail@),
{
    let mut content = String::from_str("[PANIC] task join error: ");
    content.append(detail);
    let mut warnings: Vec<String> = Vec::new();
    warnings.push(String::from_str(detail));
    assert(warnings@.map_values(|w: String| w@) =~= seq![detail@]);
    AgentResponse {
        request_id: subtask.id.clone(),
        agent_id: String::from_str("unknown"),
        content,
        structured_data: None,
        estimated_tokens: 0,
        duration: 0,
        cache_hit: false,
        warnings,
    }
}


// ---------------------------------------------------------------------------
// The request pipeline
// ---------------------------------------------------------------------------

/// How a dispatched subtask ended, as the host collects it.
#[derive(Debug)]
pub enum SubtaskOutcome {
    /// The worker returned the agent's response.
    Answered(AgentResponse),
    /// The worker failed with this error.
    Failed(OrchestratorError),
    /// The worker's task panicked; the join error's message.
    Panicked(String),
}

/// Where the processing of a request stands.
#[derive(Debug)]
pub enum PipelineStage {
    /// Nothing done yet.
    Start,
    /// Waiting for the policy guard's verdict on the user's input.
    CheckingPolicy,
    /// Waiting for the session's token estimate.
    EstimatingTokens,
    /// Waiting for the user's message to be recorded in the session.
    RecordingRequest,
    /// Waiting for the plan.
    Planning,
    /// Waiting for the agent chosen for subtask `index` of `plan`.
    Routing { plan: ExecutionPlan, index: usize },
    /// Waiting to learn whether the agent chosen for subtask `index` is known.
    FindingAgent { plan: ExecutionPlan, index: usize, agent_id: String },
    /// Waiting for subtask `index` to be dispatched.
    Dispatching { plan: ExecutionPlan, index: usize },
    /// Collecting the subtasks' responses, in plan order; `responses` holds
    /// those collected so far.
    Collecting { plan: ExecutionPlan, responses: Vec<AgentResponse> },
    /// Waiting for the aggregated response.
    Aggregating,
    /// Waiting for the answer to be recorded in the session.
    RecordingAnswer { aggregate: AggregateResponse },
    /// Waiting for the session's context to be trimmed.
    Trimming { aggregate: AggregateResponse },
    /// The request has been answered or refused.
    Finished,
}

/// What the host reports back after performing an action.
#[derive(Debug)]
pub enum PipelineEvent {
    /// Processing starts.
    Begin,
    /// The policy guard's verdict, or its error.
    PolicyChecked(Result<PolicyCheckResult, OrchestratorError>),
    /// The session's token estimate, or the context manager's error.
    TokensEstimated(Result<u64, OrchestratorError>),
    /// A message was recorded, or the context manager's error.
    MessageAdded(Result<(), OrchestratorError>),
    /// The plan, or the planner's error.
    Planned(Result<ExecutionPlan, OrchestratorError>),
    /// The chosen agent's id, or the router's error.
    Routed(Result<String, OrchestratorError>),
    /// Whether the router knows the chosen agent.
    AgentLookedUp(bool),
    /// The subtask was handed to a worker.
    Dispatched,
    /// How the awaited subtask ended.
    Collected(SubtaskOutcome),
    /// The aggregated response, or the aggregator's error.
    Aggregated(Result<AggregateResponse, OrchestratorError>),
    /// The context was trimmed, or the context manager's error.
    Trimmed(Result<(), OrchestratorError>),
}

/// What the host is to do next.
#[derive(Debug)]
pub enum PipelineAction {
    /// Ask the policy guard about the user's input.
    CheckPolicy,
    /// Ask the context manager for the session's token estimate.
    EstimateTokens,
    /// Record this message in the session.
    AddMessage(Message),
    /// Ask the planner for a plan.
    Plan,
    /// Ask the router for an agent with this capability.
    Route(String),
    /// Look up the agent with this id.
    LookUpAgent(String),
    /// Hand subtask `index` of the plan to a worker running on agent `agent_id`.
    Dispatch { index: usize, agent_id: String },
    /// Await the worker of subtask `index`.
    Collect(usize),
    /// Aggregate these responses.
    Aggregate(Vec<AgentResponse>),
    /// Trim the session's context.
    Trim,
    /// Processing is over: return this.
    Finish(Result<AggregateResponse, OrchestratorError>),
    /// The event does not belong to this stage: nothing to do.
    Wait,
}

impl PipelineStage {
    /// The indices the stage holds are within its plan.
    pub open spec fn wf(&self) -> bool {
        match self {
            PipelineStage::Routing { plan, index } => index < plan.subtasks@.len(),
            PipelineStage::FindingAgent { plan, index, .. } => index < plan.subtasks@.len(),
            PipelineStage::Dispatching { plan, index } => index < plan.subtasks@.len(),
            PipelineStage::Collecting { plan, responses } => responses@.len() < plan.subtasks@.len(),
            _ => true,
        }
    }
}

/// `r` is the response collected for `subtask` given how it ended.
pub open spec fn stands_for(r: AgentResponse, subtask: SubTask, outcome: SubtaskOutcome) -> bool {
    match outcome {
        SubtaskOutcome::Answered(a) => r == a,
        SubtaskOutcome::Failed(e) => is_failed_response(r, subtask, e),
        SubtaskOutcome::Panicked(d) => is_panicked_response(r, subtask, d@),
    }
}

/// `m` records the user's request in the session at time `now`.
pub open spec fn records_request<C: TokenCounter + ?Sized>(
    m: Message,
    counter: &C,
    request: UserRequest,
    now: i64,
) -> bool {
    &&& m.role == MessageRole::User
    &&& m.content@ == request.message@
    &&& m.token_estimate == counter.token_estimate(request.message@)
    &&& m.timestamp == now
}

/// `m` records the aggregated answer in the session at time `now`.
pub open spec fn records_answer<C: TokenCounter + ?Sized>(
    m: Message,
    counter: &C,
    aggregate: AggregateResponse,
    now: i64,
) -> bool {
    &&& m.role == MessageRole::Assistant
    &&& m.content@ == aggregate.content@
    &&& m.token_estimate == counter.token_estimate(aggregate.content@)
    &&& m.timestamp == now
}

/// `a` asks for an agent for subtask `index` of `plan`.
pub open spec fn routes(a: PipelineAction, plan: ExecutionPlan, index: int) -> bool {
    a matches PipelineAction::Route(c) && c@ == plan.subtasks@[index].required_capability@
}

fn route_action(plan: &ExecutionPlan, index: usize) -> (a: PipelineAction)
    requires
        index < plan.subtasks@.len(),
    ensures
        routes(a, *plan, index as int),
{
    PipelineAction::Route(String::from_str(plan.subtasks[index].required_capability.name()))
}

/// One step of processing `request`: given where it stands and what the
/// host reports, where it stands next and what the host is to do.
///
/// The request is checked against the policy, then against the token
/// budget; only then is it recorded in the session and planned. The
/// subtasks are routed and dispatched one by one in plan order, and their
/// responses collected in plan order, one per subtask (a failed or
/// panicked worker stands as an error response). The responses are
/// aggregated, the answer is recorded, the context is trimmed, and the
/// aggregate is returned. A refusal, or an error of any port, ends the
/// request with that error.
pub fn pipeline_step<C: TokenCounter + ?Sized>(
    counter: &C,
    request: &UserRequest,
    stage: PipelineStage,
    event: PipelineEvent,
    now: i64,
) -> (r: (PipelineStage, PipelineAction))
    requires
        stage.wf(),
    ensures
        r.0.wf(),
        match (stage, event) {
            // The first action is the policy check.
            (PipelineStage::Start, PipelineEvent::Begin) => r.0 is CheckingPolicy && r.1 is CheckPolicy,
            // A refused input ends the request before anything is recorded or planned.
            (PipelineStage::CheckingPolicy, PipelineEvent::PolicyChecked(c)) => match c {
                Err(e) => r.0 is Finished && r.1 == PipelineAction::Finish(Err(e)),
                Ok(v) => if v.allowed {
                    r.0 is EstimatingTokens && r.1 is EstimateTokens
                } else {
                    r.0 is Finished && (r.1 matches PipelineAction::Finish(
                        Err(OrchestratorError::PolicyViolation(m)),
                    ) && m@ == v.reason@)
                },
            },
            // A session already over the request's token limit ends it;
            // otherwise the request is recorded.
            (PipelineStage::EstimatingTokens, PipelineEvent::TokensEstimated(c)) => match c {
                Err(e) => r.0 is Finished && r.1 == PipelineAction::Finish(Err(e)),
                Ok(n) => if request.max_tokens matches Some(max) && n > max {
                    r.0 is Finished && (r.1 matches PipelineAction::Finish(
                        Err(OrchestratorError::TokenBudgetExceeded { used, limit }),
                    ) && used == n && Some(limit) == request.max_tokens)
                } else {
                    r.0 is RecordingRequest && (r.1 matches PipelineAction::AddMessage(m)
                        && records_request(m, counter, *request, now))
                },
            },
            // The recorded request is planned.
            (PipelineStage::RecordingRequest, PipelineEvent::MessageAdded(c)) => match c {
                Err(e) => r.0 is Finished && r.1 == PipelineAction::Finish(Err(e)),
                Ok(_) => r.0 is Planning && r.1 is Plan,
            },
            // The first subtask is routed; a plan without subtasks is
            // aggregated at once.
            (PipelineStage::Planning, PipelineEvent::Planned(c)) => match c {
                Err(e) => r.0 is Finished && r.1 == PipelineAction::Finish(Err(e)),
                Ok(p) => if p.subtasks@.len() > 0 {
                    r.0 == (PipelineStage::Routing { plan: p, index: 0 }) && routes(r.1, p, 0)
                } else {
                    r.0 is Aggregating && (r.1 matches PipelineAction::Aggregate(v) && v@.len() == 0)
                },
            },
            // A routing failure ends the request; the chosen agent is looked up.
            (PipelineStage::Routing { plan, index }, PipelineEvent::Routed(c)) => match c {
                Err(e) => r.0 is Finished && r.1 == PipelineAction::Finish(Err(e)),
                Ok(id) => r.0 == (PipelineStage::FindingAgent { plan, index, agent_id: id }) && (r.1 matches PipelineAction::LookUpAgent(a)
                    && a@ == id@),
            },
            // An unknown agent ends the request; a known one gets the subtask.
            (PipelineStage::FindingAgent { plan, index, agent_id }, PipelineEvent::AgentLookedUp(found)) => if found {
                r.0 == (PipelineStage::Dispatching { plan, index }) && r.1 == (PipelineAction::Dispatch {
                    index,
                    agent_id,
                })
            } else {
                r.0 is Finished && (r.1 matches PipelineAction::Finish(
                    Err(OrchestratorError::AgentError { agent_id: a, message: m, source: None }),
                ) && a@ == agent_id@ && m@ == "agent registered but not found"@)
            },
            // After each dispatch the next subtask, in plan order, is routed;
            // after the last, collection starts with the first subtask.
            (PipelineStage::Dispatching { plan, index }, PipelineEvent::Dispatched) => if index + 1
                < plan.subtasks@.len() {
                r.0 == (PipelineStage::Routing { plan, index: (index + 1) as usize }) && routes(
                    r.1,
                    plan,
                    index + 1,
                )
            } else {
                (r.0 matches PipelineStage::Collecting { plan: p, responses } && p == plan
                    && responses@.len() == 0) && r.1 == PipelineAction::Collect(0)
            },
            // Each collected outcome adds the response of the next subtask in
            // plan order; once every subtask has one, they are aggregated.
            (PipelineStage::Collecting { plan, responses }, PipelineEvent::Collected(o)) => exists|x: AgentResponse|
                #![trigger responses@.push(x)]
                stands_for(x, plan.subtasks@[responses@.len() as int], o) && if responses@.len() + 1
                    < plan.subtasks@.len() {
                    (r.0 matches PipelineStage::Collecting { plan: p, responses: rs } && p == plan
                        && rs@ == responses@.push(x)) && r.1 == PipelineAction::Collect(
                        (responses@.len() + 1) as usize,
                    )
                } else {
                    r.0 is Aggregating && (r.1 matches PipelineAction::Aggregate(v) && v@ == responses@.push(x))
                },
            // The aggregate is recorded as the answer.
            (PipelineStage::Aggregating, PipelineEvent::Aggregated(c)) => match c {
                Err(e) => r.0 is Finished && r.1 == PipelineAction::Finish(Err(e)),
                Ok(a) => r.0 == (PipelineStage::RecordingAnswer { aggregate: a }) && (r.1 matches PipelineAction::AddMessage(m)
                    && records_answer(m, counter, a, now)),
            },
            // Then the context is trimmed.
            (PipelineStage::RecordingAnswer { aggregate }, PipelineEvent::MessageAdded(c)) => match c {
                Err(e) => r.0 is Finished && r.1 == PipelineAction::Finish(Err(e)),
                Ok(_) => r.0 == (PipelineStage::Trimming { aggregate }) && r.1 is Trim,
            },
            // Then the aggregate is returned.
            (PipelineStage::Trimming { aggregate }, PipelineEvent::Trimmed(c)) => match c {
                Err(e) => r.0 is Finished && r.1 == PipelineAction::Finish(Err(e)),
                Ok(_) => r.0 is Finished && r.1 == PipelineAction::Finish(Ok(aggregate)),
            },
            // An event the stage does not wait for changes nothing.
            _ => r.0 == stage && r.1 is Wait,
        },
{
    match (stage, event) {
        (PipelineStage::Start, PipelineEvent::Begin) => (
            PipelineStage::CheckingPolicy,
            PipelineAction::CheckPolicy,
        ),
        (PipelineStage::CheckingPolicy, PipelineEvent::PolicyChecked(checked)) => match checked {
            Err(e) => (PipelineStage::Finished, PipelineAction::Finish(Err(e))),
            Ok(v) => match check_policy_outcome(&v) {
                Err(e) => (PipelineStage::Finished, PipelineAction::Finish(Err(e))),
                Ok(()) => (PipelineStage::EstimatingTokens, PipelineAction::EstimateTokens),
            },
        },
        (PipelineStage::EstimatingTokens, PipelineEvent::TokensEstimated(estimated)) => match estimated {
            Err(e) => (PipelineStage::Finished, PipelineAction::Finish(Err(e))),
            Ok(n) => match check_token_budget(n, request.max_tokens) {
                Err(e) => (PipelineStage::Finished, PipelineAction::Finish(Err(e))),
                Ok(()) => (
                    PipelineStage::RecordingRequest,
                    PipelineAction::AddMessage(user_message(counter, request, now)),
                ),
            },
        },
        (PipelineStage::RecordingRequest, PipelineEvent::MessageAdded(added)) => match added {
            Err(e) => (PipelineStage::Finished, PipelineAction::Finish(Err(e))),
            Ok(()) => (PipelineStage::Planning, PipelineAction::Plan),
        },
        (PipelineStage::Planning, PipelineEvent::Planned(planned)) => match planned {
            Err(e) => (PipelineStage::Finished, PipelineAction::Finish(Err(e))),
            Ok(plan) => {
                if plan.subtasks.len() > 0 {
                    let a = route_action(&plan, 0);
                    (PipelineStage::Routing { plan, index: 0 }, a)
                } else {
                    (PipelineStage::Aggregating, PipelineAction::Aggregate(Vec::new()))
                }
            },
        },
        (PipelineStage::Routing { plan, index }, PipelineEvent::Routed(routed)) => match routed {
            Err(e) => (PipelineStage::Finished, PipelineAction::Finish(Err(e))),
            Ok(agent_id) => {
                let a = PipelineAction::LookUpAgent(agent_id.clone());
                (PipelineStage::FindingAgent { plan, index, agent_id }, a)
            },
        },
        (PipelineStage::FindingAgent { plan, index, agent_id }, PipelineEvent::AgentLookedUp(found)) => {
            if found {
                (PipelineStage::Dispatching { plan, index }, PipelineAction::Dispatch { index, agent_id })
            } else {
                let e = OrchestratorError::agent(agent_id.as_str(), "agent registered but not found");
                (PipelineStage::Finished, PipelineAction::Finish(Err(e)))
            }
        },
        (PipelineStage::Dispatching { plan, index }, PipelineEvent::Dispatched) => {
            let n = plan.subtasks.len();
            if index + 1 < n {
                let a = route_action(&plan, index + 1);
                (PipelineStage::Routing { plan, index: index + 1 }, a)
            } else {
                (PipelineStage::Collecting { plan, responses: Vec::new() }, PipelineAction::Collect(0))
            }
        },
        (PipelineStage::Collecting { plan, responses }, PipelineEvent::Collected(outcome)) => {
            let ghost o = outcome;
            let ghost before = responses@;
            let i = responses.len();
            let response = match outcome {
                SubtaskOutcome::Answered(a) => a,
                SubtaskOutcome::Failed(e) => failed_subtask_response(&plan.subtasks[i], &e),
                SubtaskOutcome::Panicked(d) => panicked_subtask_response(&plan.subtasks[i], d.as_str()),
            };
            let ghost x = response;
            assert(stands_for(x, plan.subtasks@[i as int], o));
            let mut responses = responses;
            responses.push(response);
            let n = plan.subtasks.len();
            if i + 1 < n {
                (PipelineStage::Collecting { plan, responses }, PipelineAction::Collect(i + 1))
            } else {
                (PipelineStage::Aggregating, PipelineAction::Aggregate(responses))
            }
        },
        (PipelineStage::Aggregating, PipelineEvent::Aggregated(aggregated)) => match aggregated {
            Err(e) => (PipelineStage::Finished, PipelineAction::Finish(Err(e))),
            Ok(aggregate) => {
                let m = assistant_message(counter, &aggregate, now);
                (PipelineStage::RecordingAnswer { aggregate }, PipelineAction::AddMessage(m))
            },
        },
        (PipelineStage::RecordingAnswer { aggregate }, PipelineEvent::MessageAdded(added)) => match added {
            Err(e) => (PipelineStage::Finished, PipelineAction::Finish(Err(e))),
            Ok(()) => (PipelineStage::Trimming { aggregate }, PipelineAction::Trim),
        },
        (PipelineStage::Trimming { aggregate }, PipelineEvent::Trimmed(trimmed)) => match trimmed {
            Err(e) => (PipelineStage::Finished, PipelineAction::Finish(Err(e))),
            Ok(()) => (PipelineStage::Finished, PipelineAction::Finish(Ok(aggregate))),
        },
        (stage, _) => (stage, PipelineAction::Wait),
    }
}


// ---------------------------------------------------------------------------
// The subtask worker
// ---------------------------------------------------------------------------

/// A subtask to run on an agent, and the settings of the run.
#[derive(Debug)]
pub struct WorkerJob {
    /// The subtask.
    pub subtask: SubTask,
    /// The agent chosen for it.
    pub agent_id: String,
    /// The configuration version, part of the cache key.
    pub config_version: String,
    /// How many retries follow a failed first attempt.
    pub max_retries: u32,
    /// Where the subtask's timeout comes from when it sets none.
    pub timeout_policy: TimeoutPolicy,
    /// Run within the service: the agent gets the session's full input as
    /// context, a cache entry that cannot be read back or a response that
    /// cannot be stored fails the subtask, and a timeout names the subtask.
    /// Otherwise (a detached worker) the context is empty, an unreadable
    /// entry counts as a miss, and a response that cannot be stored is
    /// returned all the same.
    pub in_service: bool,
}

/// What reading the cache gave.
#[derive(Debug)]
pub enum CacheRead {
    /// A stored response, read back.
    Found(AgentResponse),
    /// No entry under the key.
    Absent,
    /// An entry that could not be read back; the reader's message.
    Unreadable(String),
    /// The cache failed.
    Failed(OrchestratorError),
}

/// How one attempt ended.
#[derive(Debug)]
pub enum AttemptResult {
    /// The agent answered.
    Answered(AgentResponse),
    /// The agent failed with this error.
    Failed(OrchestratorError),
    /// The agent did not answer within the timeout.
    TimedOut,
}

/// What storing a fresh response in the cache gave.
#[derive(Debug)]
pub enum StoreResult {
    /// The entry was stored.
    Stored,
    /// The response could not be serialized; the serializer's message.
    Unserializable(String),
    /// The cache failed to store it.
    Failed(OrchestratorError),
}

/// Where the run of a subtask stands.
#[derive(Debug)]
pub enum WorkerStage {
    /// Nothing done yet.
    Start,
    /// Waiting for the circuit breaker's verdict.
    CheckingCircuit,
    /// Waiting for the cache entry under `key`.
    ReadingCache { key: CacheKey },
    /// Waiting for the session's agent input.
    GatheringInput { key: CacheKey },
    /// Waiting for the session's system prompt; `context` is what the agent
    /// will get as context.
    GatheringPrompt { key: CacheKey, context: String },
    /// Waiting for attempt number `attempt` (from zero) of `request`.
    Attempting { key: CacheKey, request: AgentRequest, attempt: u32 },
    /// Waiting for the success to be recorded in the circuit breaker.
    RecordingSuccess { key: CacheKey, response: AgentResponse },
    /// Waiting for `response` to be stored in the cache under `key`.
    Storing { key: CacheKey, response: AgentResponse },
    /// Waiting for the failure of attempt `attempt` to be recorded.
    RecordingFailure { key: CacheKey, request: AgentRequest, attempt: u32, outcome: AttemptOutcome },
    /// Waiting out the backoff before attempt number `attempt`.
    Backing { key: CacheKey, request: AgentRequest, attempt: u32 },
    /// The subtask has been answered or has failed.
    Finished,
}

/// What the host reports back to the worker.
#[derive(Debug)]
pub enum WorkerEvent {
    /// The run starts.
    Begin,
    /// The circuit breaker's verdict.
    CircuitChecked(Result<(), OrchestratorError>),
    /// What reading the cache gave.
    CacheLookedUp(CacheRead),
    /// The session's agent input, or the context manager's error.
    InputBuilt(Result<String, OrchestratorError>),
    /// The session's system prompt, or the context manager's error.
    PromptBuilt(Result<String, OrchestratorError>),
    /// How the attempt ended.
    Attempted(AttemptResult),
    /// The circuit breaker recorded the outcome.
    Recorded,
    /// What storing the response gave.
    Stored(StoreResult),
    /// The backoff is over.
    Slept,
}

/// What the host is to do for the worker next.
#[derive(Debug)]
pub enum WorkerAction {
    /// Ask the circuit breaker whether the agent may be called.
    CheckCircuit,
    /// Read the cache under the stage's key.
    ReadCache,
    /// Ask the context manager for the session's agent input for the subtask.
    BuildInput,
    /// Ask the context manager for the session's system prompt.
    BuildPrompt,
    /// Send the stage's request to the agent, waiting at most `timeout` nanoseconds.
    Send { timeout: u128 },
    /// Record a success of the agent in the circuit breaker.
    RecordSuccess,
    /// Record a failure of the agent in the circuit breaker.
    RecordFailure,
    /// Store the stage's response in the cache under the stage's key.
    Store,
    /// Wait the backoff before attempt number `attempt`.
    Sleep { attempt: u32 },
    /// The run is over: return this.
    Finish(Result<AgentResponse, OrchestratorError>),
    /// The event does not belong to this stage: nothing to do.
    Wait,
}

impl WorkerStage {
    /// The stage's attempt number is one the job allows.
    pub open spec fn wf(&self, job: WorkerJob) -> bool {
        match self {
            WorkerStage::Attempting { attempt, .. } => attempt <= job.max_retries,
            WorkerStage::RecordingFailure { attempt, outcome, .. } => attempt <= job.max_retries
                && !(outcome is Succeeded),
            WorkerStage::Backing { attempt, .. } => attempt <= job.max_retries,
            _ => true,
        }
    }
}

/// The cache key of the job: its subtask run by its agent.
pub open spec fn job_key(job: WorkerJob) -> Seq<char> {
    hex_lower(
        sha256(cache_key_material(job.subtask.prompt@, Seq::empty(), job.agent_id@, job.config_version@)),
    )
}

/// The timeout each attempt of the job runs under.
pub open spec fn job_timeout(job: WorkerJob) -> u128 {
    match job.subtask.timeout {
        Some(t) => t,
        None => job.timeout_policy.default_timeout,
    }
}

/// `r` is the request sent to the agent for `job`, given the session's
/// system prompt and the context.
pub open spec fn requests(r: AgentRequest, job: WorkerJob, system_prompt: Seq<char>, context: Seq<char>) -> bool {
    &&& r.request_id@ == job.subtask.id@
    &&& r.system_prompt@ == system_prompt
    &&& r.user_prompt@ == job.subtask.prompt@
    &&& r.context@ == context
    &&& r.allowed_tools@.len() == 0
    &&& r.max_response_tokens == job.subtask.max_tokens
}

/// One step of running a subtask: given where the run stands and what the
/// host reports, where it stands next and what the host is to do.
///
/// The agent's circuit is checked first; a cached response is returned
/// marked as a hit. Otherwise the request is built from the session and
/// sent, under the job's timeout, at most `max_retries + 1` times. Every
/// attempt's outcome is recorded in the circuit breaker; a success is
/// stored in the cache and returned; after the last failed attempt the
/// subtask fails with that attempt's error.
pub fn worker_step(job: &WorkerJob, stage: WorkerStage, event: WorkerEvent) -> (r: (WorkerStage, WorkerAction))
    requires
        stage.wf(*job),
    ensures
        r.0.wf(*job),
        match (stage, event) {
            // The first action is the circuit check.
            (WorkerStage::Start, WorkerEvent::Begin) => r.0 is CheckingCircuit && r.1 is CheckCircuit,
            // An open circuit ends the run; otherwise the cache is read
            // under the job's key.
            (WorkerStage::CheckingCircuit, WorkerEvent::CircuitChecked(c)) => match c {
                Err(e) => r.0 is Finished && r.1 == WorkerAction::Finish(Err(e)),
                Ok(_) => (r.0 matches WorkerStage::ReadingCache { key } && key@ == job_key(*job))
                    && r.1 is ReadCache,
            },
            // A cached response is returned as a hit. A missing entry, or a
            // failing cache, leads to gathering the session's input; so does
            // an unreadable entry, except within the service, where it fails
            // the subtask.
            (WorkerStage::ReadingCache { key }, WorkerEvent::CacheLookedUp(c)) => match c {
                CacheRead::Found(a) => r.0 is Finished && r.1 == WorkerAction::Finish(
                    Ok(AgentResponse { cache_hit: true, ..a }),
                ),
                CacheRead::Unreadable(d) if job.in_service => r.0 is Finished && (r.1 matches WorkerAction::Finish(
                    Err(OrchestratorError::CacheError(m)),
                ) && m@ == "failed to deserialize cached response: "@ + d@),
                _ => if job.in_service {
                    r.0 == (WorkerStage::GatheringInput { key }) && r.1 is BuildInput
                } else {
                    (r.0 matches WorkerStage::GatheringPrompt { key: k, context } && k == key
                        && context@.len() == 0) && r.1 is BuildPrompt
                },
            },
            (WorkerStage::GatheringInput { key }, WorkerEvent::InputBuilt(c)) => match c {
                Err(e) => r.0 is Finished && r.1 == WorkerAction::Finish(Err(e)),
                Ok(s) => r.0 == (WorkerStage::GatheringPrompt { key, context: s }) && r.1 is BuildPrompt,
            },
            // The first attempt is sent. Without a system prompt a detached
            // worker sends an empty one; within the service the run fails.
            (WorkerStage::GatheringPrompt { key, context }, WorkerEvent::PromptBuilt(c)) => match c {
                Err(e) if job.in_service => r.0 is Finished && r.1 == WorkerAction::Finish(Err(e)),
                _ => (r.0 matches WorkerStage::Attempting { key: k, request, attempt } && k == key
                    && attempt == 0 && requests(
                    request,
                    *job,
                    match c {
                        Ok(s) => s@,
                        Err(_) => Seq::empty(),
                    },
                    context@,
                )) && r.1 == WorkerAction::Send { timeout: job_timeout(*job) },
            },
            // Every outcome is recorded in the circuit breaker.
            (WorkerStage::Attempting { key, request, attempt }, WorkerEvent::Attempted(c)) => match c {
                AttemptResult::Answered(a) => r.0 == (WorkerStage::RecordingSuccess { key, response: a })
                    && r.1 is RecordSuccess,
                AttemptResult::Failed(e) => r.0 == (WorkerStage::RecordingFailure {
                    key,
                    request,
                    attempt,
                    outcome: AttemptOutcome::Failed(e),
                }) && r.1 is RecordFailure,
                AttemptResult::TimedOut => r.0 == (WorkerStage::RecordingFailure {
                    key,
                    request,
                    attempt,
                    outcome: AttemptOutcome::TimedOut,
                }) && r.1 is RecordFailure,
            },
            // A recorded success is stored in the cache.
            (WorkerStage::RecordingSuccess { key, response }, WorkerEvent::Recorded) => r.0 == (
            WorkerStage::Storing { key, response }) && r.1 is Store,
            // The fresh response is returned whether or not the cache took
            // it, except within the service, where a response that cannot
            // be serialized fails the subtask.
            (WorkerStage::Storing { key, response }, WorkerEvent::Stored(c)) => match c {
                StoreResult::Unserializable(d) if job.in_service => r.0 is Finished && (r.1 matches WorkerAction::Finish(
                    Err(OrchestratorError::SerializationError(m)),
                ) && m@ == "failed to serialize response for cache: "@ + d@),
                _ => r.0 is Finished && r.1 == WorkerAction::Finish(Ok(response)),
            },
            // After a recorded failure the subtask is retried after a
            // backoff while retries are left, and fails with the attempt's
            // error after the last one.
            (WorkerStage::RecordingFailure { key, request, attempt, outcome }, WorkerEvent::Recorded) => if attempt
                < job.max_retries {
                r.0 == (WorkerStage::Backing { key, request, attempt: (attempt + 1) as u32 }) && r.1 == (
                WorkerAction::Sleep { attempt: (attempt + 1) as u32 })
            } else {
                r.0 is Finished && (r.1 matches WorkerAction::Finish(Err(e)) && match outcome {
                    AttemptOutcome::Failed(f) => e == f,
                    _ => timeout_error_holds(
                        e,
                        job.agent_id@,
                        if job.in_service {
                            Some(job.subtask.id@)
                        } else {
                            None
                        },
                        job_timeout(*job),
                    ),
                })
            },
            // After the backoff the same request is sent again.
            (WorkerStage::Backing { key, request, attempt }, WorkerEvent::Slept) => r.0 == (
            WorkerStage::Attempting { key, request, attempt }) && r.1 == WorkerAction::Send {
                timeout: job_timeout(*job),
            },
            // An event the stage does not wait for changes nothing.
            _ => r.0 == stage && r.1 is Wait,
        },
{
    match (stage, event) {
        (WorkerStage::Start, WorkerEvent::Begin) => (WorkerStage::CheckingCircuit, WorkerAction::CheckCircuit),
        (WorkerStage::CheckingCircuit, WorkerEvent::CircuitChecked(checked)) => match checked {
            Err(e) => (WorkerStage::Finished, WorkerAction::Finish(Err(e))),
            Ok(()) => {
                let key = subtask_cache_key(&job.subtask, job.agent_id.as_str(), job.config_version.as_str());
                (WorkerStage::ReadingCache { key }, WorkerAction::ReadCache)
            },
        },
        (WorkerStage::ReadingCache { key }, WorkerEvent::CacheLookedUp(read)) => match read {
            CacheRead::Found(a) => (WorkerStage::Finished, WorkerAction::Finish(Ok(served_from_cache(a)))),
            CacheRead::Unreadable(d) if job.in_service => {
                let mut m = String::from_str("failed to deserialize cached response: ");
                m.append(d.as_str());
                (WorkerStage::Finished, WorkerAction::Finish(Err(OrchestratorError::CacheError(m))))
            },
            _ => {
                if job.in_service {
                    (WorkerStage::GatheringInput { key }, WorkerAction::BuildInput)
                } else {
                    (WorkerStage::GatheringPrompt { key, context: String::new() }, WorkerAction::BuildPrompt)
                }
            },
        },
        (WorkerStage::GatheringInput { key }, WorkerEvent::InputBuilt(built)) => match built {
            Err(e) => (WorkerStage::Finished, WorkerAction::Finish(Err(e))),
            Ok(s) => (WorkerStage::GatheringPrompt { key, context: s }, WorkerAction::BuildPrompt),
        },
        (WorkerStage::GatheringPrompt { key, context }, WorkerEvent::PromptBuilt(built)) => {
            let system_prompt = match built {
                Err(e) => {
                    if job.in_service {
                        return (WorkerStage::Finished, WorkerAction::Finish(Err(e)));
                    }
                    String::new()
                },
                Ok(s) => s,
            };
            let request = agent_request_for(&job.subtask, system_prompt, context);
            let timeout = subtask_timeout(&job.subtask, &job.timeout_policy);
            (WorkerStage::Attempting { key, request, attempt: 0 }, WorkerAction::Send { timeout })
        },
        (WorkerStage::Attempting { key, request, attempt }, WorkerEvent::Attempted(result)) => match result {
            AttemptResult::Answered(a) => (
                WorkerStage::RecordingSuccess { key, response: a },
                WorkerAction::RecordSuccess,
            ),
            AttemptResult::Failed(e) => (
                WorkerStage::RecordingFailure { key, request, attempt, outcome: AttemptOutcome::Failed(e) },
                WorkerAction::RecordFailure,
            ),
            AttemptResult::TimedOut => (
                WorkerStage::RecordingFailure { key, request, attempt, outcome: AttemptOutcome::TimedOut },
                WorkerAction::RecordFailure,
            ),
        },
        (WorkerStage::RecordingSuccess { key, response }, WorkerEvent::Recorded) => (
            WorkerStage::Storing { key, response },
            WorkerAction::Store,
        ),
        (WorkerStage::Storing { key, response }, WorkerEvent::Stored(stored)) => match stored {
            StoreResult::Unserializable(d) if job.in_service => {
                let mut m = String::from_str("failed to serialize response for cache: ");
                m.append(d.as_str());
                (WorkerStage::Finished, WorkerAction::Finish(Err(OrchestratorError::SerializationError(m))))
            },
            _ => (WorkerStage::Finished, WorkerAction::Finish(Ok(response))),
        },
        (WorkerStage::RecordingFailure { key, request, attempt, outcome }, WorkerEvent::Recorded) => {
            let timeout = subtask_timeout(&job.subtask, &job.timeout_policy);
            let subtask_id = if job.in_service {
                Some(job.subtask.id.as_str())
            } else {
                None
            };
            match after_attempt(job.max_retries, attempt, outcome, job.agent_id.as_str(), subtask_id, timeout) {
                WorkerStep::Retry { attempt: next } => (
                    WorkerStage::Backing { key, request, attempt: next },
                    WorkerAction::Sleep { attempt: next },
                ),
                WorkerStep::GiveUp(e) => (WorkerStage::Finished, WorkerAction::Finish(Err(e))),
                WorkerStep::Done => (WorkerStage::Finished, WorkerAction::Wait),
            }
        },
        (WorkerStage::Backing { key, request, attempt }, WorkerEvent::Slept) => {
            let timeout = subtask_timeout(&job.subtask, &job.timeout_policy);
            (WorkerStage::Attempting { key, request, attempt }, WorkerAction::Send { timeout })
        },
        (stage, _) => (stage, WorkerAction::Wait),
    }
}

} // verus!
