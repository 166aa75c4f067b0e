//! The transport retry policy: one logical request becomes a bounded
//! sequence of physical attempts governed by exponential backoff.
//!
//! The policy is explicit state, not recursion with sleeps: the driver
//! performs one physical attempt, hands the outcome to [`RetryState::decide`]
//! and either delivers the response, sleeps for the returned delay and tries
//! again, or gives up with the last error. A completed exchange with a
//! client-class status is permanent and never retried; a network failure or a
//! server-class status is transient and retried until the elapsed-delay
//! budget is spent.

use vstd::prelude::*;

verus! {

/// The first inter-attempt delay, in milliseconds.
pub open spec fn initial_delay_ms() -> u64 {
    500
}

/// The total delay budget across all attempts of one logical request, in
/// milliseconds.
pub open spec fn max_elapsed_ms() -> u64 {
    30000
}

/// The outcome of one physical attempt, as the driver observed it.
#[derive(Debug, Clone, Copy, PartialEq, Eq, Structural)]
pub enum AttemptOutcome {
    /// The exchange completed with the given HTTP status code.
    Completed(u16),
    /// The exchange failed below HTTP: the connection broke or timed out.
    NetworkFailure,
}

/// What the driver must do after an attempt.
#[derive(Debug, Clone, Copy, PartialEq, Eq, Structural)]
pub enum RetryDecision {
    /// The attempt concluded the logical request: hand the response on.
    Deliver,
    /// Sleep for the given number of milliseconds, then try again.
    RetryAfter(u64),
    /// The budget is spent: surface the last error.
    GiveUp,
}

/// True if the outcome is transient: retried while budget remains.
/// A completed client-class or successful exchange is permanent.
pub open spec fn spec_transient(outcome: AttemptOutcome) -> bool {
    match outcome {
        AttemptOutcome::Completed(status) => status >= 500,
        AttemptOutcome::NetworkFailure => true,
    }
}

/// The retry state of one logical request.
#[derive(Debug, Clone, Copy)]
pub struct RetryState {
    /// The delay the next retry would sleep, in milliseconds.
    pub next_delay_ms: u64,
    /// The delay already slept across earlier retries, in milliseconds.
    pub elapsed_ms: u64,
}

impl RetryState {
    /// The state stays within bounds that keep the arithmetic exact: the
    /// delay doubles only on a retry, and a retry happens only while the
    /// elapsed delay is under the budget.
    pub open spec fn wf(self) -> bool {
        self.elapsed_ms <= 94000 && self.next_delay_ms <= 1000 + 2 * self.elapsed_ms
    }

    /// A fresh state: nothing slept, first retry after the initial delay.
    pub fn new() -> (s: RetryState)
        ensures
            s.next_delay_ms == initial_delay_ms(),
            s.elapsed_ms == 0,
            s.wf(),
    {
        RetryState { next_delay_ms: 500, elapsed_ms: 0 }
    }

    /// Decides what follows one physical attempt.
    ///
    /// A permanent outcome is delivered unchanged. A transient outcome is
    /// retried after the current delay, which then doubles, while the
    /// elapsed-delay budget lasts; once it is spent the request gives up.
    pub fn decide(&mut self, outcome: AttemptOutcome) -> (d: RetryDecision)
        requires
            old(self).wf(),
        ensures
            final(self).wf(),
            !spec_transient(outcome) ==> d == RetryDecision::Deliver && *final(self) == *old(self),
            spec_transient(outcome) && old(self).elapsed_ms >= max_elapsed_ms() ==> d
                == RetryDecision::GiveUp && *final(self) == *old(self),
            spec_transient(outcome) && old(self).elapsed_ms < max_elapsed_ms() ==> d
                == RetryDecision::RetryAfter(old(self).next_delay_ms) && final(self).elapsed_ms
                == old(self).elapsed_ms + old(self).next_delay_ms && final(self).next_delay_ms == 2
                * old(self).next_delay_ms,
    {
        let transient = match outcome {
            AttemptOutcome::Completed(status) => status >= 500,
            AttemptOutcome::NetworkFailure => true,
        };
        if !transient {
            RetryDecision::Deliver
        } else if self.elapsed_ms >= 30000 {
            RetryDecision::GiveUp
        } else {
            let delay = self.next_delay_ms;
            self.elapsed_ms = self.elapsed_ms + delay;
            self.next_delay_ms = delay * 2;
            RetryDecision::RetryAfter(delay)
        }
    }
}

/// The first retries of a fresh state sleep the exponential prefix: 500 ms,
/// then 1000 ms, and a completed client-class exchange is delivered on the
/// first decision without any retry.
pub proof fn lemma_backoff_prefix(s0: RetryState, s1: RetryState, s2: RetryState)
    requires
        s0.next_delay_ms == initial_delay_ms(),
        s0.elapsed_ms == 0,
        s1.next_delay_ms == 2 * s0.next_delay_ms,
        s1.elapsed_ms == s0.elapsed_ms + s0.next_delay_ms,
        s2.next_delay_ms == 2 * s1.next_delay_ms,
        s2.elapsed_ms == s1.elapsed_ms + s1.next_delay_ms,
    ensures
        s0.next_delay_ms == 500,
        s1.next_delay_ms == 1000,
        s1.elapsed_ms == 500,
        s2.elapsed_ms == 1500,
        forall|status: u16| 400 <= status < 500 ==> !spec_transient(AttemptOutcome::Completed(status)),
{
}

/// The path with its leading '/' characters removed, as joined onto a base
/// URL to avoid an accidental absolute reset.
pub open spec fn spec_trim_leading_slashes(s: Seq<char>) -> Seq<char>
    decreases s.len(),
{
    if s.len() > 0 && s.first() == '/' {
        spec_trim_leading_slashes(s.drop_first())
    } else {
        s
    }
}

/// Removes the leading '/' characters of a path before it is joined onto a
/// base URL.
pub fn trim_leading_slashes(s: &str) -> (r: &str)
    ensures
        r@ == spec_trim_leading_slashes(s@),
    decreases s@.len(),
{
    let len = s.unicode_len();
    if len > 0 && s.get_char(0) == '/' {
        let t = s.substring_char(1, len);
        proof {
            assert(t@ =~= s@.drop_first());
        }
        trim_leading_slashes(t)
    } else {
        s
    }
}

} // verus!
