//! Response aggregation: combines the responses of the agents that worked
//! on a request into one response, keeping per-worker traces.

use vstd::prelude::*;
use vstd::string::*;

use crate::domain::agent::{AgentResponse, MAX_DURATION_NANOS};
use crate::domain::error::OrchestratorError;
use crate::domain::orchestrator::{AggregateResponse, CacheStats, WorkerResult};
use crate::text::{join_strings, join_with};

verus! {

/// Sum of the estimated tokens of `rs`.
pub open spec fn tokens_total(rs: Seq<AgentResponse>) -> nat
    decreases rs.len(),
{
    if rs.len() == 0 {
        0
    } else {
        tokens_total(rs.drop_last()) + rs.last().estimated_tokens as nat
    }
}

/// Sum of the durations of `rs`, in nanoseconds.
pub open spec fn duration_total(rs: Seq<AgentResponse>) -> nat
    decreases rs.len(),
{
    if rs.len() == 0 {
        0
    } else {
        duration_total(rs.drop_last()) + rs.last().duration as nat
    }
}

/// Number of responses of `rs` served from cache.
pub open spec fn hits_count(rs: Seq<AgentResponse>) -> nat
    decreases rs.len(),
{
    if rs.len() == 0 {
        0
    } else {
        hits_count(rs.drop_last()) + if rs.last().cache_hit {
            1nat
        } else {
            0nat
        }
    }
}

/// `n`, capped at the largest `u64`.
pub open spec fn cap_u64(n: nat) -> u64 {
    if n <= u64::MAX {
        n as u64
    } else {
        u64::MAX
    }
}

/// The trace kept of one response.
pub open spec fn traces(w: WorkerResult, r: AgentResponse) -> bool {
    &&& w.agent_id == r.agent_id
    &&& w.subtask_description@ == Seq::<char>::empty()
    &&& w.duration == r.duration
    &&& w.estimated_tokens == r.estimated_tokens
    &&& w.cache_hit == r.cache_hit
    &&& w.errors@ == r.warnings@
}

/// Sum of the durations recorded in the worker traces `ws`, in nanoseconds.
pub open spec fn worker_durations(ws: Seq<WorkerResult>) -> nat
    decreases ws.len(),
{
    if ws.len() == 0 {
        0
    } else {
        worker_durations(ws.drop_last()) + ws.last().duration as nat
    }
}

/// Sum of the token estimates recorded in the worker traces `ws`.
pub open spec fn worker_tokens(ws: Seq<WorkerResult>) -> nat
    decreases ws.len(),
{
    if ws.len() == 0 {
        0
    } else {
        worker_tokens(ws.drop_last()) + ws.last().estimated_tokens as nat
    }
}

/// Traces kept one per response carry the responses' own figures: their
/// durations add up to the responses' total duration, and their token
/// estimates to the responses' total tokens.
pub proof fn law_traces_carry_response_figures(ws: Seq<WorkerResult>, rs: Seq<AgentResponse>)
    requires
        ws.len() == rs.len(),
        forall|i: int| 0 <= i < rs.len() ==> traces(#[trigger] ws[i], rs[i]),
    ensures
        worker_durations(ws) == duration_total(rs),
        worker_tokens(ws) == tokens_total(rs),
    decreases rs.len(),
{
    if rs.len() > 0 {
        assert(traces(ws[rs.len() - 1], rs[rs.len() - 1]));
        law_traces_carry_response_figures(ws.drop_last(), rs.drop_last());
    }
}

proof fn lemma_prefix_totals(rs: Seq<AgentResponse>, i: int)
    requires
        0 <= i <= rs.len(),
    ensures
        duration_total(rs.take(i)) <= duration_total(rs),
        hits_count(rs.take(i)) <= i,
    decreases rs.len() - i,
{
    if i < rs.len() {
        lemma_prefix_totals(rs, i + 1);
        assert(rs.take(i + 1).drop_last() =~= rs.take(i));
        lemma_hits_at_most_len(rs.take(i));
    } else {
        assert(rs.take(i) =~= rs);
        lemma_hits_at_most_len(rs);
    }
}

proof fn lemma_hits_at_most_len(rs: Seq<AgentResponse>)
    ensures
        hits_count(rs) <= rs.len(),
    decreases rs.len(),
{
    if rs.len() > 0 {
        lemma_hits_at_most_len(rs.drop_last());
    }
}

fn copy_strings(v: &Vec<String>) -> (r: Vec<String>)
    ensures
        r@ == v@,
{
    let mut r: Vec<String> = Vec::new();
    let mut i: usize = 0;
    while i < v.len()
        invariant
            i <= v.len(),
            r@ == v@.take(i as int),
        decreases v.len() - i,
    {
        r.push(v[i].clone());
        assert(r@ =~= v@.take(i + 1));
        i = i + 1;
    }
    assert(v@.take(v.len() as int) =~= v@);
    r
}

/// Default aggregator: concatenates the agents' contents with a separator.
pub struct ConcatAggregator {
    separator: String,
}

impl View for ConcatAggregator {
    type V = Seq<char>;

    /// The separator placed between contents.
    closed spec fn view(&self) -> Seq<char> {
        self.separator@
    }
}

impl ConcatAggregator {
    /// Create a new aggregator with the given separator between responses.
    pub fn new(separator: &str) -> (a: ConcatAggregator)
        ensures
            a@ == separator@,
    {
        ConcatAggregator { separator: String::from_str(separator) }
    }

    /// Combine the responses: contents joined by the separator, token totals
    /// summed (capped at `u64::MAX`), durations summed, cache hits and misses
    /// counted (each response exactly once, as a hit or as a miss), and one
    /// worker trace per response, in order.
    pub fn aggregate(&self, request_id: &str, responses: Vec<AgentResponse>) -> (r: Result<
        AggregateResponse,
        OrchestratorError,
    >)
        requires
            responses@.len() <= u32::MAX,
            duration_total(responses@) <= MAX_DURATION_NANOS,
        ensures
            r is Ok,
            r matches Ok(a) && {
                &&& a.request_id@ == request_id@
                &&& a.content@ == join_with(
                    responses@.map_values(|x: AgentResponse| x.content@),
                    self@,
                )
                &&& a.structured_data is None
                &&& a.total_tokens == cap_u64(tokens_total(responses@))
                &&& a.total_duration == duration_total(responses@)
                &&& a.cache_stats.hits == hits_count(responses@)
                &&& a.cache_stats.misses == responses@.len() - hits_count(responses@)
                &&& a.cache_stats.hits + a.cache_stats.misses == responses@.len()
                &&& a.worker_results@.len() == responses@.len()
                &&& worker_durations(a.worker_results@) == a.total_duration
                &&& cap_u64(worker_tokens(a.worker_results@)) == a.total_tokens
                &&& forall|i: int|
                    0 <= i < responses@.len() ==> traces(
                        #[trigger] a.worker_results@[i],
                        responses@[i],
                    )
            },
    {
        let mut total_tokens: u64 = 0;
        let mut total_duration: u128 = 0;
        let mut cache_stats = CacheStats::default();
        let mut worker_results: Vec<WorkerResult> = Vec::new();
        let mut contents: Vec<String> = Vec::new();
        let mut i: usize = 0;
        while i < responses.len()
            invariant
                i <= responses.len(),
                responses@.len() <= u32::MAX,
                duration_total(responses@) <= MAX_DURATION_NANOS,
                total_tokens == cap_u64(tokens_total(responses@.take(i as int))),
                total_duration == duration_total(responses@.take(i as int)),
                cache_stats.hits == hits_count(responses@.take(i as int)),
                cache_stats.misses == i - hits_count(responses@.take(i as int)),
                worker_results@.len() == i,
                forall|j: int| 0 <= j < i ==> traces(#[trigger] worker_results@[j], responses@[j]),
                contents@.map_values(|s: String| s@) == responses@.take(i as int).map_values(
                    |x: AgentResponse| x.content@,
                ),
            decreases responses.len() - i,
        {
            let resp = &responses[i];
            proof {
                assert(responses@.take(i + 1).drop_last() =~= responses@.take(i as int));
                lemma_prefix_totals(responses@, i + 1);
                lemma_prefix_totals(responses@, i as int);
            }
            total_tokens = total_tokens.saturating_add(resp.estimated_tokens);
            total_duration = total_duration + resp.duration;
            if resp.cache_hit {
                cache_stats.hits = cache_stats.hits + 1;
            } else {
                cache_stats.misses = cache_stats.misses + 1;
            }
            worker_results.push(
                WorkerResult {
                    agent_id: resp.agent_id.clone(),
                    subtask_description: String::new(),
                    duration: resp.duration,
                    estimated_tokens: resp.estimated_tokens,
                    cache_hit: resp.cache_hit,
                    errors: copy_strings(&resp.warnings),
                },
            );
            let ghost prev = contents@;
            contents.push(resp.content.clone());
            assert(contents@.map_values(|s: String| s@) =~= prev.map_values(|s: String| s@).push(
                resp.content@,
            ));
            assert(responses@.take(i + 1).map_values(|x: AgentResponse| x.content@) =~= responses@.take(
                i as int,
            ).map_values(|x: AgentResponse| x.content@).push(resp.content@));
            i = i + 1;
        }
        assert(responses@.take(responses.len() as int) =~= responses@);
        proof {
            law_traces_carry_response_figures(worker_results@, responses@);
        }
        let content = join_strings(contents.as_slice(), self.separator.as_str());
        Ok(
            AggregateResponse {
                request_id: String::from_str(request_id),
                content,
                structured_data: None,
                worker_results,
                total_tokens,
                total_duration,
                cache_stats,
            },
        )
    }
}

impl Default for ConcatAggregator {
    fn default() -> (a: ConcatAggregator)
        ensures
            a@ == "\n\n"@,
    {
        ConcatAggregator::new("\n\n")
    }
}

} // verus!
