//! Bounded retry with a fixed delay, as a state machine: the caller performs
//! the action the controller asks for and records what the attempt returned.

use vstd::prelude::*;
use crate::error::UploadError;

verus! {

/// What the caller does next.
#[derive(PartialEq, Eq, Structural, Clone, Copy, Debug)]
pub enum RetryAction {
    /// Make an attempt now.
    Attempt,
    /// Wait the configured delay, then make an attempt.
    WaitThenAttempt,
    /// Stop: the last recorded result is final.
    Finish,
}

/// The abstract state of a controller: its bound, the attempts made so far,
/// and whether the last one succeeded (`None` before the first).
pub struct RetryView {
    pub max_retries: nat,
    pub attempts: nat,
    pub last_ok: Option<bool>,
}

/// The state before any attempt.
pub open spec fn retry_initial(max_retries: nat) -> RetryView {
    RetryView { max_retries, attempts: 0, last_ok: None }
}

/// The first attempt runs at once; a success ends the run; a failure is
/// followed by another attempt after the delay while fewer than
/// `max_retries` retries were used.
pub open spec fn retry_action(v: RetryView) -> RetryAction {
    match v.last_ok {
        None => RetryAction::Attempt,
        Some(true) => RetryAction::Finish,
        Some(false) => if v.attempts <= v.max_retries {
            RetryAction::WaitThenAttempt
        } else {
            RetryAction::Finish
        },
    }
}

/// The state after recording an attempt that succeeded (`ok`) or failed.
pub open spec fn retry_record(v: RetryView, ok: bool) -> RetryView {
    RetryView { max_retries: v.max_retries, attempts: v.attempts + 1, last_ok: Some(ok) }
}

/// The state reached when the `i`-th attempt made from `v` succeeds exactly
/// when `outcomes[i]` holds, stopping when the controller finishes or the
/// outcomes run out.
pub open spec fn retry_drive(v: RetryView, outcomes: Seq<bool>) -> RetryView
    decreases outcomes.len(),
{
    if outcomes.len() == 0 || retry_action(v) is Finish {
        v
    } else {
        retry_drive(retry_record(v, outcomes[0]), outcomes.drop_first())
    }
}

/// Retry controller for one file; `T` is what a successful attempt yields.
pub struct RetryController<T> {
    max_retries: u32,
    attempts: u64,
    last: Option<Result<T, UploadError>>,
}

impl<T> View for RetryController<T> {
    type V = RetryView;

    closed spec fn view(&self) -> RetryView {
        RetryView {
            max_retries: self.max_retries as nat,
            attempts: self.attempts as nat,
            last_ok: match self.last {
                None => None,
                Some(r) => Some(r is Ok),
            },
        }
    }
}

impl<T> RetryController<T> {
    /// The controller's internal consistency.
    pub closed spec fn wf(&self) -> bool {
        &&& self.attempts <= self.max_retries + 1
        &&& (self.attempts == 0) == (self.last is None)
    }

    /// The result of the last attempt, if any.
    pub closed spec fn last_result(&self) -> Option<Result<T, UploadError>> {
        self.last
    }

    /// A controller that allows `max_retries` retries after the first attempt.
    pub fn new(max_retries: u32) -> (r: Self)
        ensures
            r.wf(),
            r@ == retry_initial(max_retries as nat),
            r.last_result() is None,
    {
        RetryController { max_retries, attempts: 0, last: None }
    }

    /// What the caller does next.
    pub fn next_action(&self) -> (r: RetryAction)
        requires
            self.wf(),
        ensures
            r == retry_action(self@),
    {
        match &self.last {
            None => RetryAction::Attempt,
            Some(Ok(_)) => RetryAction::Finish,
            Some(Err(_)) => if self.attempts <= self.max_retries as u64 {
                RetryAction::WaitThenAttempt
            } else {
                RetryAction::Finish
            },
        }
    }

    /// The number of attempts made so far.
    pub fn attempts(&self) -> (r: u64)
        ensures
            r as nat == self@.attempts,
    {
        self.attempts
    }

    /// Records the result of the attempt the controller asked for.
    pub fn record(&mut self, result: Result<T, UploadError>)
        requires
            old(self).wf(),
            !(retry_action(old(self)@) is Finish),
        ensures
            final(self).wf(),
            final(self)@ == retry_record(old(self)@, result is Ok),
            final(self).last_result() == Some(result),
    {
        self.attempts = self.attempts + 1;
        self.last = Some(result);
    }

    /// The final result: the success, or the last failure.
    pub fn finish(self) -> (r: Result<T, UploadError>)
        requires
            self.wf(),
            retry_action(self@) is Finish,
        ensures
            self.last_result() == Some(r),
            r is Ok == (self@.last_ok == Some(true)),
            1 <= self@.attempts <= self@.max_retries + 1,
    {
        match self.last {
            Some(r) => r,
            None => {
                assert(false);
                Err(UploadError::Other(String::new()))
            },
        }
    }
}

proof fn lemma_failures_exhaust(v: RetryView, outcomes: Seq<bool>)
    requires
        v.attempts <= v.max_retries + 1,
        (v.attempts == 0) == (v.last_ok is None),
        v.last_ok != Some(true),
        outcomes.len() + v.attempts >= v.max_retries + 1,
        forall|i: int| 0 <= i < outcomes.len() ==> !outcomes[i],
    ensures
        retry_drive(v, outcomes).attempts == v.max_retries + 1,
        retry_drive(v, outcomes).last_ok == Some(false),
        retry_action(retry_drive(v, outcomes)) is Finish,
    decreases outcomes.len(),
{
    if retry_action(v) is Finish {
    } else {
        let rest = outcomes.drop_first();
        assert forall|i: int| 0 <= i < rest.len() implies !rest[i] by {
            assert(rest[i] == outcomes[i + 1]);
        }
        lemma_failures_exhaust(retry_record(v, outcomes[0]), rest);
    }
}

/// When every attempt fails, the controller asks for exactly
/// `max_retries + 1` attempts and then finishes on the last failure.
pub proof fn retry_all_failures(max_retries: nat, outcomes: Seq<bool>)
    requires
        outcomes.len() >= max_retries + 1,
        forall|i: int| 0 <= i < outcomes.len() ==> !outcomes[i],
    ensures
        retry_drive(retry_initial(max_retries), outcomes).attempts == max_retries + 1,
        retry_drive(retry_initial(max_retries), outcomes).last_ok == Some(false),
        retry_action(retry_drive(retry_initial(max_retries), outcomes)) is Finish,
{
    lemma_failures_exhaust(retry_initial(max_retries), outcomes);
}

proof fn lemma_success_stops(v: RetryView, outcomes: Seq<bool>, k: nat)
    requires
        (v.attempts == 0) == (v.last_ok is None),
        v.last_ok != Some(true),
        v.attempts + k <= v.max_retries,
        k < outcomes.len(),
        forall|j: int| 0 <= j < k ==> !outcomes[j],
        outcomes[k as int],
    ensures
        retry_drive(v, outcomes).attempts == v.attempts + k + 1,
        retry_drive(v, outcomes).last_ok == Some(true),
        retry_action(retry_drive(v, outcomes)) is Finish,
    decreases k,
{
    let rest = outcomes.drop_first();
    if k == 0 {
        assert(retry_drive(v, outcomes) == retry_drive(retry_record(v, true), rest));
    } else {
        assert forall|j: int| 0 <= j < k - 1 implies !rest[j] by {
            assert(rest[j] == outcomes[j + 1]);
        }
        assert(rest[k - 1] == outcomes[k as int]);
        lemma_success_stops(retry_record(v, outcomes[0]), rest, (k - 1) as nat);
    }
}

/// When attempts `0..k` fail and attempt `k <= max_retries` succeeds, the
/// controller asks for exactly `k + 1` attempts, whatever later attempts
/// would have returned, and finishes on the success.
pub proof fn retry_stops_at_success(max_retries: nat, outcomes: Seq<bool>, k: nat)
    requires
        k <= max_retries,
        k < outcomes.len(),
        forall|j: int| 0 <= j < k ==> !outcomes[j],
        outcomes[k as int],
    ensures
        retry_drive(retry_initial(max_retries), outcomes).attempts == k + 1,
        retry_drive(retry_initial(max_retries), outcomes).last_ok == Some(true),
        retry_action(retry_drive(retry_initial(max_retries), outcomes)) is Finish,
{
    lemma_success_stops(retry_initial(max_retries), outcomes, k);
}

} // verus!
