//! Token counting: the estimation port, the default heuristic counter,
//! and per-request / per-session token budgets.

use vstd::prelude::*;

use crate::domain::error::OrchestratorError;
use crate::text::{byte_len, str_byte_len};

verus! {

/// Port for estimating token counts.
///
/// An estimate depends on the text alone: `token_estimate` names it.
pub trait TokenCounter {
    /// The estimate this counter gives for `text`.
    spec fn token_estimate(&self, text: Seq<char>) -> u64;

    /// Estimate the number of tokens in the given text.
    fn count_tokens(&self, text: &str) -> (n: u64)
        ensures
            n == self.token_estimate(text@),
    ;
}

/// A simple heuristic token counter: one token per four bytes, rounded up.
#[derive(Debug, Clone, Copy)]
pub struct SimpleTokenCounter;

/// Ceiling of `n / 4`.
pub open spec fn quarter_ceil(n: nat) -> nat {
    if n % 4 == 0 {
        n / 4
    } else {
        n / 4 + 1
    }
}

impl TokenCounter for SimpleTokenCounter {
    open spec fn token_estimate(&self, text: Seq<char>) -> u64 {
        quarter_ceil(byte_len(text)) as u64
    }

    fn count_tokens(&self, text: &str) -> (n: u64)
        ensures
            4 * n >= byte_len(text@),
            4 * n < byte_len(text@) + 4,
    {
        let len = str_byte_len(text) as u64;
        if len % 4 == 0 {
            len / 4
        } else {
            len / 4 + 1
        }
    }
}

/// The simple counter gives the number of four-byte pieces a text's UTF-8
/// encoding takes, the last one possibly partial: four tokens per estimate
/// cover the text's bytes, with less than four to spare.
pub proof fn law_simple_estimate_covers_bytes(text: Seq<char>)
    requires
        byte_len(text) <= u64::MAX,
    ensures
        4 * SimpleTokenCounter.token_estimate(text) >= byte_len(text),
        4 * SimpleTokenCounter.token_estimate(text) < byte_len(text) + 4,
{
}

/// A shared counter counts as the counter it points to.
impl<T: TokenCounter + ?Sized> TokenCounter for std::sync::Arc<T> {
    open spec fn token_estimate(&self, text: Seq<char>) -> u64 {
        (**self).token_estimate(text)
    }

    fn count_tokens(&self, text: &str) -> (n: u64) {
        (**self).count_tokens(text)
    }
}

impl Default for SimpleTokenCounter {
    fn default() -> (r: SimpleTokenCounter) {
        SimpleTokenCounter
    }
}

/// A token budget for a single request or session.
#[derive(Debug, Clone)]
pub struct TokenBudget {
    /// Maximum tokens allowed.
    pub limit: u64,
    /// Tokens consumed so far.
    pub used: u64,
}

impl TokenBudget {
    /// Tokens left under the limit (zero once the limit is reached or passed).
    pub open spec fn spec_remaining(self) -> u64 {
        if self.used <= self.limit {
            (self.limit - self.used) as u64
        } else {
            0
        }
    }

    /// Whether nothing is left under the limit.
    pub open spec fn spec_is_exhausted(self) -> bool {
        self.used >= self.limit
    }

    /// Whether `amount` more tokens fit under the limit.
    pub open spec fn admits(self, amount: u64) -> bool {
        self.used + amount <= self.limit
    }

    /// Create a new budget with the given limit.
    pub fn new(limit: u64) -> (b: TokenBudget)
        ensures
            b.limit == limit,
            b.used == 0,
    {
        TokenBudget { limit, used: 0 }
    }

    /// How many tokens remain.
    pub fn remaining(&self) -> (r: u64)
        ensures
            r == self.spec_remaining(),
    {
        self.limit.saturating_sub(self.used)
    }

    /// Whether the budget is exhausted.
    pub fn is_exhausted(&self) -> (b: bool)
        ensures
            b == self.spec_is_exhausted(),
    {
        self.used >= self.limit
    }

    /// Try to consume `amount` tokens.
    ///
    /// Fails with `TokenBudgetExceeded` (reporting the usage the request
    /// would have reached) exactly when the amount does not fit; the budget
    /// is then left unchanged.
    pub fn consume(&mut self, amount: u64) -> (r: Result<(), OrchestratorError>)
        requires
            old(self).used + amount <= u64::MAX,
        ensures
            final(self).limit == old(self).limit,
            old(self).admits(amount) ==> r is Ok && final(self).used == old(self).used + amount,
            !old(self).admits(amount) ==> final(self).used == old(self).used,
            !old(self).admits(amount) ==> (r matches Err(
                OrchestratorError::TokenBudgetExceeded { used, limit },
            ) && used == old(self).used + amount && limit == old(self).limit),
    {
        if self.used + amount > self.limit {
            return Err(
                OrchestratorError::TokenBudgetExceeded { used: self.used + amount, limit: self.limit },
            );
        }
        self.used = self.used + amount;
        Ok(())
    }

    /// Reset usage to zero.
    pub fn reset(&mut self)
        ensures
            final(self).limit == old(self).limit,
            final(self).used == 0,
    {
        self.used = 0;
    }
}

/// A budget never goes over its limit through `consume`: starting within the
/// limit, any sequence of accepted consumptions stays within it, and the
/// remaining tokens shrink by exactly the amount consumed.
pub proof fn law_consume_stays_within_limit(b: TokenBudget, amount: u64)
    requires
        b.used <= b.limit,
        b.admits(amount),
    ensures
        ({
            let after = TokenBudget { limit: b.limit, used: (b.used + amount) as u64 };
            &&& after.used <= after.limit
            &&& after.spec_remaining() == b.spec_remaining() - amount
        }),
{
}

/// A budget is exhausted exactly when nothing remains.
pub proof fn law_exhausted_iff_nothing_remains(b: TokenBudget)
    ensures
        b.spec_is_exhausted() <==> b.spec_remaining() == 0,
{
}

/// Two accepted consumptions admit exactly what one consumption of their sum
/// admits, and lead to the same usage.
pub proof fn law_consume_is_additive(b: TokenBudget, a1: u64, a2: u64)
    requires
        b.used + a1 + a2 <= u64::MAX,
    ensures
        (b.admits(a1) && (TokenBudget { limit: b.limit, used: (b.used + a1) as u64 }).admits(a2))
            <==> b.admits((a1 + a2) as u64),
{
}

/// A fresh or reset budget has its whole limit remaining and is exhausted
/// only when the limit is zero.
pub proof fn law_fresh_budget_has_full_limit(limit: u64)
    ensures
        (TokenBudget { limit, used: 0 }).spec_remaining() == limit,
        (TokenBudget { limit, used: 0 }).spec_is_exhausted() <==> limit == 0,
{
}

/// Token budget configuration for the orchestrator.
#[derive(Debug, Clone)]
pub struct TokenBudgetConfig {
    /// Maximum tokens per individual request.
    pub per_request_limit: u64,
    /// Maximum tokens per session.
    pub per_session_limit: u64,
}

impl Default for TokenBudgetConfig {
    fn default() -> (c: TokenBudgetConfig)
        ensures
            c.per_request_limit == 8000,
            c.per_session_limit == 100_000,
    {
        TokenBudgetConfig { per_request_limit: 8000, per_session_limit: 100_000 }
    }
}

} // verus!
