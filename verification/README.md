# OmniShell orchestrator

A multi-agent orchestrator: a user request is checked against a policy,
planned into subtasks, routed to agents by the capabilities they declare,
run with caching, retries, timeouts and circuit breaking, and the answers
are aggregated and recorded in the session's context.

## Layout

- `src/` — the library, verified with Verus.
  - `domain/` — the domain types and their rules: errors, token budgets,
    agents, cache keys, conversation context and ledgers, tasks, policies,
    tools.
  - `application/` — the services: the context manager (context windows and
    trimming), the capability router, the circuit breaker, the planner, the
    aggregator, and the request pipeline and the subtask worker as step
    functions (`pipeline_step`, `worker_step`): from where a request or a
    run stands and what the host reports, to where it stands next and what
    the host is to do.
  - `text.rs` — small string helpers shared by the services.
- `tests/` — tests of the library on concrete values.
- `app/` — the asynchronous host: the ports as async traits, the shared
  state behind locks, the clock, the spawned workers and the serde copies
  of the library's types. It runs the step functions' loops, performing
  each action they name and reporting what it gave; the retry backoff,
  computed with a floating-point multiplier, stays there.

Laws of the library (what every operation keeps, what one call tells of
another) are public proof functions named `law_*` next to the functions
they speak of.
