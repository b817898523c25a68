//! Orchestrator domain: the user-facing request and the aggregated response.

use vstd::prelude::*;

verus! {

/// A user request to the orchestrator.
#[derive(Debug, Clone)]
pub struct UserRequest {
    /// Unique request identifier.
    pub id: String,
    /// Session identifier (for context continuity).
    pub session_id: String,
    /// The user's message / task description.
    pub message: String,
    /// Optional: which capability the user wants (if they know).
    pub preferred_capability: Option<String>,
    /// Maximum tokens the user wants to spend.
    pub max_tokens: Option<u64>,
}

/// Result from a single worker, used for traceability.
#[derive(Debug, Clone)]
pub struct WorkerResult {
    /// Which agent handled this.
    pub agent_id: String,
    /// Subtask description.
    pub subtask_description: String,
    /// Duration for this subtask, in nanoseconds.
    pub duration: u128,
    /// Estimated tokens consumed.
    pub estimated_tokens: u64,
    /// Whether this was a cache hit.
    pub cache_hit: bool,
    /// Errors/warnings (empty if success).
    pub errors: Vec<String>,
}

/// Cache hit/miss statistics for the aggregate response.
#[derive(Debug, Clone, Copy)]
pub struct CacheStats {
    /// Number of cache hits.
    pub hits: u32,
    /// Number of cache misses.
    pub misses: u32,
}

impl Default for CacheStats {
    fn default() -> (s: CacheStats)
        ensures
            s.hits == 0,
            s.misses == 0,
    {
        CacheStats { hits: 0, misses: 0 }
    }
}

/// The aggregated response returned to the user.
#[derive(Debug, Clone)]
pub struct AggregateResponse {
    /// The original request ID.
    pub request_id: String,
    /// Final combined content.
    pub content: String,
    /// Structured data (if any).
    pub structured_data: Option<serde_json::Value>,
    /// Per-worker results for traceability.
    pub worker_results: Vec<WorkerResult>,
    /// Total estimated tokens consumed.
    pub total_tokens: u64,
    /// Total wall-clock time, in nanoseconds.
    pub total_duration: u128,
    /// Cache statistics.
    pub cache_stats: CacheStats,
}

} // verus!
