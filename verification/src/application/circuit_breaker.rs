//! A per-agent circuit breaker that pauses dispatching when consecutive
//! failures reach a threshold.
//!
//! Time is given by the caller as a reading of a monotonic clock in
//! nanoseconds; durations are nanoseconds too.

use vstd::prelude::*;
use vstd::string::*;

use crate::application::keyed::KeyedStore;
use crate::domain::agent::MAX_DURATION_NANOS;
use crate::domain::error::OrchestratorError;
use crate::domain::task::NANOS_PER_SEC;
use crate::text::{decimal, u64_to_decimal};

verus! {

/// Possible states of a circuit.
#[derive(Debug, Clone, Copy, PartialEq, Eq, Structural)]
pub enum CircuitState {
    /// Normal operation.
    Closed,
    /// Too many failures; requests are rejected.
    Open,
    /// Allowing a single probe request to test recovery: the probe has been
    /// let through, and further requests wait for its outcome.
    HalfOpen,
}

/// Circuit breaker state for a single agent.
#[derive(Debug, Clone, Copy)]
pub struct AgentCircuit {
    /// Consecutive failure count.
    pub failures: u32,
    /// When the circuit was opened (if open), as a clock reading in nanoseconds.
    pub opened_at: Option<u128>,
    /// Current state.
    pub state: CircuitState,
}

/// The circuit of an agent that has not failed.
pub open spec fn closed_circuit() -> AgentCircuit {
    AgentCircuit { failures: 0, opened_at: None, state: CircuitState::Closed }
}

impl Default for AgentCircuit {
    fn default() -> (c: AgentCircuit)
        ensures
            c == closed_circuit(),
    {
        AgentCircuit { failures: 0, opened_at: None, state: CircuitState::Closed }
    }
}

/// Configuration for the circuit breaker.
#[derive(Debug, Clone, Copy)]
pub struct CircuitBreakerConfig {
    /// Number of consecutive failures before opening the circuit.
    pub failure_threshold: u32,
    /// How long the circuit stays open before moving to half-open, in nanoseconds.
    pub recovery_timeout: u128,
}

impl Default for CircuitBreakerConfig {
    fn default() -> (c: CircuitBreakerConfig)
        ensures
            c.failure_threshold == 5,
            c.recovery_timeout == 60 * NANOS_PER_SEC,
    {
        CircuitBreakerConfig { failure_threshold: 5, recovery_timeout: 60 * NANOS_PER_SEC }
    }
}

/// Time passed since `since` at clock reading `now` (zero if the clock reads earlier).
pub open spec fn elapsed_since(now: u128, since: u128) -> u128 {
    if now >= since {
        (now - since) as u128
    } else {
        0
    }
}

/// Outcome of checking a circuit at time `now`: the circuit afterwards, and
/// whether the request may go ahead. An open circuit whose recovery timeout
/// has elapsed lets one probe through and becomes half-open; a half-open
/// circuit refuses requests until the probe's outcome is recorded.
pub open spec fn check_step(c: AgentCircuit, cfg: CircuitBreakerConfig, now: u128) -> (
    AgentCircuit,
    bool,
) {
    match c.state {
        CircuitState::Closed => (c, true),
        CircuitState::HalfOpen => (c, false),
        CircuitState::Open => match c.opened_at {
            Some(at) => if elapsed_since(now, at) >= cfg.recovery_timeout {
                (AgentCircuit { state: CircuitState::HalfOpen, ..c }, true)
            } else {
                (c, false)
            },
            None => (AgentCircuit { state: CircuitState::Closed, ..c }, true),
        },
    }
}

/// The circuit after a failure recorded at time `now`.
pub open spec fn failure_step(c: AgentCircuit, cfg: CircuitBreakerConfig, now: u128) -> AgentCircuit {
    let failures = (c.failures + 1) as u32;
    if failures >= cfg.failure_threshold && c.state != CircuitState::Open {
        AgentCircuit { failures, opened_at: Some(now), state: CircuitState::Open }
    } else {
        AgentCircuit { failures, ..c }
    }
}

/// The circuit after a success: closed, with no failures.
pub open spec fn success_step(c: AgentCircuit) -> AgentCircuit {
    closed_circuit()
}

/// The circuit held for `agent` (a closed one if none is held yet).
pub open spec fn circuit_of(circuits: Map<Seq<char>, AgentCircuit>, agent: Seq<char>) -> AgentCircuit {
    if circuits.dom().contains(agent) {
        circuits[agent]
    } else {
        closed_circuit()
    }
}

/// How `std::time::Duration`'s `Debug` renders a duration of `secs` seconds
/// and `nanos` nanoseconds (e.g. `"59.5s"`, `"250ms"`).
pub uninterp spec fn duration_debug(secs: u64, nanos: u32) -> Seq<char>;

/// Renders a duration as `format!("{:?}", Duration::new(secs, nanos))` does.
///
/// Trusted: the text is `Duration`'s `Debug` rendering of the duration made
/// of exactly these seconds and nanoseconds; `Duration::new` does not panic
/// since `nanos` is below one second.
#[verifier::external_body]
fn duration_debug_text(secs: u64, nanos: u32) -> (s: String)
    requires
        nanos < 1_000_000_000,
    ensures
        s@ == duration_debug(secs, nanos),
{
    format!("{:?}", std::time::Duration::new(secs, nanos))
}

/// The reason given when a request is refused: the failure count and the
/// time left before the circuit may be probed again.
pub open spec fn open_reason(failures: u32, remaining: u128) -> Seq<char> {
    decimal(failures as nat) + " consecutive failures; retry after "@ + duration_debug(
        (remaining / NANOS_PER_SEC) as u64,
        (remaining % NANOS_PER_SEC) as u32,
    )
}

/// The reason given when a request is refused while the probe of a
/// half-open circuit is outstanding.
pub open spec fn probe_reason(failures: u32) -> Seq<char> {
    decimal(failures as nat) + " consecutive failures; waiting for the probe request's outcome"@
}

/// The reason given when the check of circuit `c` at time `now` refuses a request.
pub open spec fn refusal_reason(c: AgentCircuit, cfg: CircuitBreakerConfig, now: u128) -> Seq<char> {
    if c.state == CircuitState::HalfOpen {
        probe_reason(c.failures)
    } else {
        open_reason(c.failures, (cfg.recovery_timeout - elapsed_since(now, c.opened_at->0)) as u128)
    }
}

/// Circuit breaker tracking state for all agents.
pub struct CircuitBreaker {
    config: CircuitBreakerConfig,
    circuits: KeyedStore<AgentCircuit>,
}

impl View for CircuitBreaker {
    type V = Map<Seq<char>, AgentCircuit>;

    closed spec fn view(&self) -> Map<Seq<char>, AgentCircuit> {
        self.circuits@
    }
}

impl CircuitBreaker {
    /// The store is well formed and the timeout is a valid duration.
    pub closed spec fn wf(&self) -> bool {
        &&& self.circuits.wf()
        &&& self.config.recovery_timeout <= MAX_DURATION_NANOS
    }

    /// The configuration the breaker was created with.
    pub closed spec fn spec_config(&self) -> CircuitBreakerConfig {
        self.config
    }

    /// Create a new circuit breaker with the given configuration.
    pub fn new(config: CircuitBreakerConfig) -> (cb: CircuitBreaker)
        requires
            config.recovery_timeout <= MAX_DURATION_NANOS,
        ensures
            cb.wf(),
            cb@ == Map::<Seq<char>, AgentCircuit>::empty(),
            cb.spec_config() == config,
    {
        CircuitBreaker { config, circuits: KeyedStore::new() }
    }

    fn current(&self, agent_id: &str) -> (c: AgentCircuit)
        requires
            self.wf(),
        ensures
            c == circuit_of(self@, agent_id@),
    {
        match self.circuits.find(agent_id) {
            Some(i) => *self.circuits.get(i),
            None => AgentCircuit::default(),
        }
    }

    /// The consecutive failure count recorded for an agent.
    pub fn failure_count(&self, agent_id: &str) -> (n: u32)
        requires
            self.wf(),
        ensures
            n == circuit_of(self@, agent_id@).failures,
    {
        self.current(agent_id).failures
    }

    /// Check whether requests to the given agent are allowed at clock reading `now`.
    ///
    /// An open circuit whose recovery timeout has elapsed moves to half-open
    /// and lets this one probe request through; one whose timeout has not
    /// elapsed refuses the request with `CircuitBreakerOpen`, and so does a
    /// half-open circuit until the probe's success or failure is recorded.
    pub fn check(&mut self, agent_id: &str, now: u128) -> (r: Result<(), OrchestratorError>)
        requires
            old(self).wf(),
        ensures
            final(self).wf(),
            final(self).spec_config() == old(self).spec_config(),
            final(self)@ == old(self)@.insert(
                agent_id@,
                check_step(circuit_of(old(self)@, agent_id@), old(self).spec_config(), now).0,
            ),
            r is Ok <==> check_step(circuit_of(old(self)@, agent_id@), old(self).spec_config(), now).1,
            r is Err ==> (r matches Err(OrchestratorError::CircuitBreakerOpen { agent_id: a, reason })
                && a@ == agent_id@ && reason@ == refusal_reason(
                circuit_of(old(self)@, agent_id@),
                old(self).spec_config(),
                now,
            )),
    {
        let c = self.current(agent_id);
        match c.state {
            CircuitState::Closed => {
                self.circuits.insert(agent_id, c);
                Ok(())
            },
            CircuitState::HalfOpen => {
                self.circuits.insert(agent_id, c);
                let mut reason = u64_to_decimal(c.failures as u64);
                reason.append(" consecutive failures; waiting for the probe request's outcome");
                Err(OrchestratorError::CircuitBreakerOpen { agent_id: String::from_str(agent_id), reason })
            },
            CircuitState::Open => match c.opened_at {
                Some(at) => {
                    let elapsed = now.saturating_sub(at);
                    if elapsed >= self.config.recovery_timeout {
                        let next = AgentCircuit { state: CircuitState::HalfOpen, ..c };
                        self.circuits.insert(agent_id, next);
                        Ok(())
                    } else {
                        self.circuits.insert(agent_id, c);
                        let remaining = self.config.recovery_timeout - elapsed;
                        let secs = (remaining / NANOS_PER_SEC) as u64;
                        let nanos = (remaining % NANOS_PER_SEC) as u32;
                        let mut reason = u64_to_decimal(c.failures as u64);
                        reason.append(" consecutive failures; retry after ");
                        let wait = duration_debug_text(secs, nanos);
                        reason.append(wait.as_str());
                        Err(
                            OrchestratorError::CircuitBreakerOpen {
                                agent_id: String::from_str(agent_id),
                                reason,
                            },
                        )
                    }
                },
                None => {
                    let next = AgentCircuit { state: CircuitState::Closed, ..c };
                    self.circuits.insert(agent_id, next);
                    Ok(())
                },
            },
        }
    }

    /// Record a successful request, closing the agent's circuit.
    pub fn record_success(&mut self, agent_id: &str)
        requires
            old(self).wf(),
        ensures
            final(self).wf(),
            final(self).spec_config() == old(self).spec_config(),
            final(self)@ == old(self)@.insert(agent_id@, success_step(circuit_of(old(self)@, agent_id@))),
    {
        self.circuits.insert(agent_id, AgentCircuit::default());
    }

    /// Record a failed request at clock reading `now`, opening the circuit
    /// when the consecutive failures reach the threshold.
    pub fn record_failure(&mut self, agent_id: &str, now: u128)
        requires
            old(self).wf(),
            circuit_of(old(self)@, agent_id@).failures < u32::MAX,
        ensures
            final(self).wf(),
            final(self).spec_config() == old(self).spec_config(),
            final(self)@ == old(self)@.insert(
                agent_id@,
                failure_step(circuit_of(old(self)@, agent_id@), old(self).spec_config(), now),
            ),
    {
        let c = self.current(agent_id);
        let failures = c.failures + 1;
        let next = if failures >= self.config.failure_threshold && c.state != CircuitState::Open {
            AgentCircuit { failures, opened_at: Some(now), state: CircuitState::Open }
        } else {
            AgentCircuit { failures, ..c }
        };
        self.circuits.insert(agent_id, next);
    }

    /// Reset the circuit for a specific agent.
    pub fn reset(&mut self, agent_id: &str)
        requires
            old(self).wf(),
        ensures
            final(self).wf(),
            final(self).spec_config() == old(self).spec_config(),
            final(self)@ == old(self)@.remove(agent_id@),
    {
        self.circuits.remove(agent_id);
    }
}

// ---------------------------------------------------------------------------
// Laws
// ---------------------------------------------------------------------------

/// Circuits reachable from a closed one: a circuit that is not closed has
/// reached the failure threshold, and an open circuit knows when it opened.
pub open spec fn circuit_inv(c: AgentCircuit, cfg: CircuitBreakerConfig) -> bool {
    &&& c.state != CircuitState::Closed ==> c.failures >= cfg.failure_threshold
    &&& c.state == CircuitState::Open ==> c.opened_at is Some
}

/// The circuit after `n` consecutive failures recorded at `times[0..n]`.
pub open spec fn after_failures(c: AgentCircuit, cfg: CircuitBreakerConfig, times: Seq<u128>) -> AgentCircuit
    decreases times.len(),
{
    if times.len() == 0 {
        c
    } else {
        failure_step(after_failures(c, cfg, times.drop_last()), cfg, times.last())
    }
}

/// Every operation keeps the circuit invariant, starting from a closed circuit.
pub proof fn law_circuit_invariant_is_kept(c: AgentCircuit, cfg: CircuitBreakerConfig, now: u128)
    requires
        circuit_inv(c, cfg),
        c.failures < u32::MAX,
    ensures
        circuit_inv(closed_circuit(), cfg),
        circuit_inv(check_step(c, cfg, now).0, cfg),
        circuit_inv(failure_step(c, cfg, now), cfg),
        circuit_inv(success_step(c), cfg),
{
}

/// Starting closed with no failures, the circuit stays closed through fewer
/// than `failure_threshold` consecutive failures and opens at the failure
/// that reaches it, remembering when.
pub proof fn law_threshold_failures_open_the_circuit(cfg: CircuitBreakerConfig, times: Seq<u128>)
    requires
        cfg.failure_threshold >= 1,
        times.len() <= cfg.failure_threshold,
    ensures
        after_failures(closed_circuit(), cfg, times).failures == times.len(),
        times.len() < cfg.failure_threshold ==> after_failures(closed_circuit(), cfg, times).state
            == CircuitState::Closed,
        times.len() == cfg.failure_threshold ==> after_failures(closed_circuit(), cfg, times).state
            == CircuitState::Open && after_failures(closed_circuit(), cfg, times).opened_at == Some(
            times.last(),
        ),
    decreases times.len(),
{
    if times.len() > 0 {
        law_threshold_failures_open_the_circuit(cfg, times.drop_last());
    }
}

/// An open circuit refuses requests until the recovery timeout has elapsed
/// since it opened, and then lets one through, moving to half-open.
pub proof fn law_open_circuit_waits_for_recovery(c: AgentCircuit, cfg: CircuitBreakerConfig, now: u128)
    requires
        c.state == CircuitState::Open,
        c.opened_at is Some,
    ensures
        elapsed_since(now, c.opened_at->0) < cfg.recovery_timeout ==> !check_step(c, cfg, now).1
            && check_step(c, cfg, now).0 == c,
        elapsed_since(now, c.opened_at->0) >= cfg.recovery_timeout ==> check_step(c, cfg, now).1
            && check_step(c, cfg, now).0.state == CircuitState::HalfOpen && check_step(c, cfg, now).0.failures
            == c.failures,
{
}

/// A half-open circuit lets a single probe through: once an open circuit has
/// let the probe pass, every later check is refused until an outcome is
/// recorded.
pub proof fn law_half_open_allows_single_probe(
    c: AgentCircuit,
    cfg: CircuitBreakerConfig,
    now: u128,
    later: u128,
)
    requires
        c.state == CircuitState::Open,
        c.opened_at is Some,
        check_step(c, cfg, now).1,
    ensures
        check_step(c, cfg, now).0.state == CircuitState::HalfOpen,
        !check_step(check_step(c, cfg, now).0, cfg, later).1,
{
}

/// A failure while half-open opens the circuit again at the time of the
/// failure; a success in any state closes it and clears the failures.
pub proof fn law_probe_outcome_decides(c: AgentCircuit, cfg: CircuitBreakerConfig, now: u128)
    requires
        circuit_inv(c, cfg),
        c.failures < u32::MAX,
    ensures
        c.state == CircuitState::HalfOpen ==> failure_step(c, cfg, now).state == CircuitState::Open
            && failure_step(c, cfg, now).opened_at == Some(now),
        success_step(c).state == CircuitState::Closed && success_step(c).failures == 0,
        check_step(success_step(c), cfg, now).1,
{
}

/// An agent with no recorded history, or whose circuit was reset, is let through.
pub proof fn law_unknown_or_reset_agent_is_allowed(
    circuits: Map<Seq<char>, AgentCircuit>,
    agent: Seq<char>,
    cfg: CircuitBreakerConfig,
    now: u128,
)
    ensures
        check_step(circuit_of(circuits.remove(agent), agent), cfg, now).1,
        circuit_of(circuits.remove(agent), agent).failures == 0,
{
}

} // verus!
