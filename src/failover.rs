//! Failover and retry logic for provider fallbacks.

use vstd::prelude::*;
use crate::Provider;
use crate::error::{Error, retryable};

verus! {

/// The largest wait, in milliseconds, that a backoff can name.
pub const MAX_BACKOFF_MS: u64 = 0xffff_ffff_ffff_ffff;

/// How often, and after which waits, a failed request is tried again.
pub struct RetryPolicy {
    pub max_retries: usize,
    /// Factor by which each wait exceeds the one before.
    pub backoff_multiplier: u64,
    /// Wait before the first retry, in milliseconds.
    pub initial_backoff_ms: u64,
}

/// `base` to the power `e`.
pub open spec fn power(base: nat, e: nat) -> nat
    decreases e,
{
    if e == 0 { 1 } else { base * power(base, (e - 1) as nat) }
}

/// The wait before retry `attempt`: `initial × multiplier^attempt` milliseconds,
/// held at the largest `u64` where the product exceeds it.
pub open spec fn backoff_ms(initial: u64, multiplier: u64, attempt: nat) -> nat {
    let exact = initial as nat * power(multiplier as nat, attempt);
    if exact <= MAX_BACKOFF_MS { exact } else { MAX_BACKOFF_MS as nat }
}

proof fn lemma_backoff_step(initial: u64, multiplier: u64, attempt: nat)
    ensures
        backoff_ms(initial, multiplier, attempt + 1) == {
            let prev = backoff_ms(initial, multiplier, attempt) * multiplier;
            if prev <= MAX_BACKOFF_MS { prev } else { MAX_BACKOFF_MS as int }
        },
{
    let m = multiplier as nat;
    let x = initial as nat * power(m, attempt);
    assert(power(m, attempt + 1) == m * power(m, attempt));
    assert(initial as nat * power(m, attempt + 1) == x * m) by (nonlinear_arith)
        requires
            power(m, attempt + 1) == m * power(m, attempt),
            x == initial as nat * power(m, attempt),
    ;
    let big = MAX_BACKOFF_MS as nat;
    if x > big && m >= 1 {
        assert(x * m >= x) by (nonlinear_arith)
            requires
                m >= 1,
                x > 0,
        ;
        assert(big * m >= big) by (nonlinear_arith)
            requires
                m >= 1,
                big > 0,
        ;
    }
}

impl RetryPolicy {
    /// Create a new retry policy.
    pub fn new(max_retries: usize, backoff_multiplier: u64, initial_backoff_ms: u64) -> (r: Self)
        ensures
            r.max_retries == max_retries,
            r.backoff_multiplier == backoff_multiplier,
            r.initial_backoff_ms == initial_backoff_ms,
    {
        RetryPolicy { max_retries, backoff_multiplier, initial_backoff_ms }
    }

    /// The wait in milliseconds before retry `attempt`, the first retry
    /// being attempt 0.
    pub fn backoff_for_attempt(&self, attempt: usize) -> (r: u64)
        ensures
            r == backoff_ms(self.initial_backoff_ms, self.backoff_multiplier, attempt as nat),
            attempt == 0 ==> r == self.initial_backoff_ms,
    {
        let mut acc: u64 = self.initial_backoff_ms;
        let mut i: usize = 0;
        assert(power(self.backoff_multiplier as nat, 0) == 1);
        assert(backoff_ms(self.initial_backoff_ms, self.backoff_multiplier, 0) == self.initial_backoff_ms);
        while i < attempt
            invariant
                i <= attempt,
                acc == backoff_ms(self.initial_backoff_ms, self.backoff_multiplier, i as nat),
            decreases attempt - i,
        {
            proof {
                lemma_backoff_step(self.initial_backoff_ms, self.backoff_multiplier, i as nat);
            }
            acc = match acc.checked_mul(self.backoff_multiplier) {
                Some(v) => v,
                None => MAX_BACKOFF_MS,
            };
            i = i + 1;
        }
        acc
    }
}

impl RetryPolicy {
    /// Three retries, waits doubling from 100 ms.
    pub open spec fn spec_default() -> RetryPolicy {
        RetryPolicy { max_retries: 3, backoff_multiplier: 2, initial_backoff_ms: 100 }
    }
}

impl Default for RetryPolicy {
    /// Three retries, waits doubling from 100 ms.
    fn default() -> (r: Self)
        ensures
            r == RetryPolicy::spec_default(),
    {
        RetryPolicy::new(3, 2, 100)
    }
}

/// A candidate as the contracts see it: a provider and a model name.
pub type CandidateView = (Provider, Seq<char>);

/// The candidates of a list, as the contracts see them.
pub open spec fn candidates_view(v: Seq<(Provider, String)>) -> Seq<CandidateView> {
    Seq::new(v.len(), |i: int| (v[i].0, v[i].1@))
}

/// Where the cursor of a sequence of `n` candidates stands after one advance
/// from `c`: one further on, unless `c` is already the last index.
pub open spec fn next_cursor(c: int, n: int) -> int {
    if c + 1 < n { c + 1 } else { c }
}

/// Where the cursor stands after `k` advances from `c`.
pub open spec fn cursor_after(c: int, n: int, k: nat) -> int
    decreases k,
{
    if k == 0 { c } else { next_cursor(cursor_after(c, n, (k - 1) as nat), n) }
}

/// Advancing a fresh (or reset) sequence of `n` candidates `k` times leaves its
/// cursor at `min(k, n - 1)`.
pub proof fn lemma_cursor_after_advances(n: int, k: nat)
    requires
        n > 0,
    ensures
        cursor_after(0, n, k) == if k < n - 1 { k as int } else { n - 1 },
    decreases k,
{
    if k > 0 {
        lemma_cursor_after_advances(n, (k - 1) as nat);
    }
}

/// What follows a failed attempt.
pub enum FailoverDecision {
    /// Try `model` of `provider` after waiting `backoff_ms` milliseconds.
    Retry { provider: Provider, model: String, backoff_ms: u64 },
    /// No further attempt: the last error stands.
    GiveUp,
}

/// On a non-empty sequence, no candidate follows the current one exactly when
/// the cursor is on the last index, which is where an advance leaves it in
/// place.
pub proof fn lemma_has_next_at_last_index(seq: FailoverSequence)
    requires
        seq.wf(),
        seq.providers.len() > 0,
    ensures
        !seq.spec_has_next() <==> seq.current_index == seq.providers.len() - 1,
        next_cursor(seq.current_index as int, seq.providers.len() as int) == seq.current_index
            <==> !seq.spec_has_next(),
{
}

/// An ordered list of (provider, model) candidates with a cursor on the one
/// in use.
pub struct FailoverSequence {
    pub providers: Vec<(Provider, String)>,
    pub current_index: usize,
}

/// Copies a candidate.
pub fn copy_candidate(c: &(Provider, String)) -> (r: (Provider, String))
    ensures
        r.0 == c.0,
        r.1@ == c.1@,
{
    (c.0, c.1.clone())
}

/// Copies a list of candidates.
pub fn copy_candidates(v: &Vec<(Provider, String)>) -> (r: Vec<(Provider, String)>)
    ensures
        candidates_view(r@) == candidates_view(v@),
{
    let mut r: Vec<(Provider, String)> = Vec::new();
    let mut i: usize = 0;
    while i < v.len()
        invariant
            i <= v.len(),
            r.len() == i,
            forall|k: int| 0 <= k < i ==> (#[trigger] r@[k]).0 == v@[k].0 && r@[k].1@ == v@[k].1@,
        decreases v.len() - i,
    {
        r.push(copy_candidate(&v[i]));
        i = i + 1;
    }
    assert(candidates_view(r@) =~= candidates_view(v@));
    r
}

impl FailoverSequence {
    /// The cursor is an index of the list, or 0 on an empty list.
    pub open spec fn wf(&self) -> bool {
        if self.providers.len() == 0 {
            self.current_index == 0
        } else {
            self.current_index < self.providers.len()
        }
    }

    /// The candidates, as the contracts see them.
    pub open spec fn candidates(&self) -> Seq<CandidateView> {
        candidates_view(self.providers@)
    }

    /// Whether a candidate follows the current one.
    pub open spec fn spec_has_next(&self) -> bool {
        self.current_index + 1 < self.providers.len()
    }

    /// Create a new failover sequence, its cursor on the first candidate.
    pub fn new(providers: Vec<(Provider, String)>) -> (r: Self)
        ensures
            r.wf(),
            r.providers@ == providers@,
            r.current_index == 0,
    {
        FailoverSequence { providers, current_index: 0 }
    }

    /// The candidate under the cursor, if the list is not empty.
    pub fn current(&self) -> (r: Option<&(Provider, String)>)
        requires
            self.wf(),
        ensures
            self.providers.len() == 0 ==> r is None,
            self.providers.len() > 0 ==> r == Some(&self.providers@[self.current_index as int]),
    {
        if self.current_index < self.providers.len() {
            Some(&self.providers[self.current_index])
        } else {
            None
        }
    }

    /// Moves the cursor to the next candidate and returns it; where the cursor
    /// is on the last candidate (or the list is empty), it stays and the
    /// result is `None`.
    pub fn next(&mut self) -> (r: Option<&(Provider, String)>)
        requires
            old(self).wf(),
        ensures
            final(self).wf(),
            final(self).providers == old(self).providers,
            final(self).current_index == next_cursor(
                old(self).current_index as int,
                old(self).providers.len() as int,
            ),
            old(self).spec_has_next() ==> r == Some(
                &old(self).providers@[old(self).current_index + 1],
            ),
            !old(self).spec_has_next() ==> r is None,
    {
        if self.has_next() {
            self.current_index = self.current_index + 1;
            Some(&self.providers[self.current_index])
        } else {
            None
        }
    }

    /// Whether a candidate follows the current one.
    pub fn has_next(&self) -> (r: bool)
        requires
            self.wf(),
        ensures
            r == self.spec_has_next(),
    {
        self.current_index + 1 < self.providers.len()
    }

    /// Whether a request that failed with `e` on retry index `attempt` is tried
    /// again: the failure is retryable, retries are left, and a candidate
    /// follows the current one.
    pub open spec fn may_retry(&self, policy: RetryPolicy, attempt: nat, e: Error) -> bool {
        &&& retryable(e)
        &&& attempt < policy.max_retries
        &&& self.spec_has_next()
    }

    /// Decides what follows a failure with `error` on retry index `attempt`:
    /// where [`Self::may_retry`] holds, the cursor advances and the next
    /// candidate is named with the wait before it; otherwise nothing moves
    /// and the request gives up.
    pub fn on_failure(&mut self, policy: &RetryPolicy, attempt: usize, error: &Error) -> (d:
        FailoverDecision)
        requires
            old(self).wf(),
        ensures
            final(self).wf(),
            final(self).providers == old(self).providers,
            old(self).may_retry(*policy, attempt as nat, *error) ==> {
                &&& final(self).current_index == old(self).current_index + 1
                &&& d matches FailoverDecision::Retry { provider, model, backoff_ms: wait }
                &&& provider == old(self).providers@[old(self).current_index + 1].0
                &&& model@ == old(self).providers@[old(self).current_index + 1].1@
                &&& wait == backoff_ms(
                    policy.initial_backoff_ms,
                    policy.backoff_multiplier,
                    attempt as nat,
                )
            },
            !old(self).may_retry(*policy, attempt as nat, *error) ==> {
                &&& final(self).current_index == old(self).current_index
                &&& d is GiveUp
            },
    {
        if error.is_retryable() && attempt < policy.max_retries && self.has_next() {
            let wait = policy.backoff_for_attempt(attempt);
            match self.next() {
                Some(c) => FailoverDecision::Retry { provider: c.0, model: c.1.clone(), backoff_ms: wait },
                None => FailoverDecision::GiveUp,
            }
        } else {
            FailoverDecision::GiveUp
        }
    }

    /// Puts the cursor back on the first candidate.
    pub fn reset(&mut self)
        requires
            old(self).wf(),
        ensures
            final(self).wf(),
            final(self).providers == old(self).providers,
            final(self).current_index == 0,
    {
        self.current_index = 0;
    }
}

} // verus!
