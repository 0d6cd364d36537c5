use vstd::prelude::*;
use crate::classify::{Failure, Outcome};

verus! {

/// Retries allowed after the first attempt unless configured otherwise.
pub const DEFAULT_MAX_ATTEMPTS: u32 = 6;

/// What the caller does after feeding one outcome to a [`RetryController`].
#[derive(Debug, PartialEq, Eq)]
pub enum RetryAction<T> {
    /// The task is over, with this terminal result.
    Finish(Result<T, Failure>),
    /// Suspend the throttled task, and no other, for this many seconds; then attempt again.
    RetryAfter(u64),
    /// Attempt again at once.
    RetryNow,
}

/// Retry policy and attempt state of a single task.
///
/// `attempts` counts the retries made so far; the task is attempted at most
/// `max_attempts + 1` times.
#[derive(Clone, Copy, Debug, PartialEq, Eq, Structural)]
pub struct RetryController {
    pub attempts: u32,
    pub max_attempts: u32,
}

impl RetryController {
    pub open spec fn wf(self) -> bool {
        self.attempts <= self.max_attempts
    }

    /// The next state and action after one classified attempt.
    pub open spec fn step_spec<T>(self, o: Outcome<T>) -> (RetryController, RetryAction<T>) {
        match o {
            Outcome::Success(v) => (self, RetryAction::Finish(Ok(v))),
            Outcome::Fatal(f) => (self, RetryAction::Finish(Err(f))),
            Outcome::RateLimited(wait) => {
                if self.attempts >= self.max_attempts {
                    (self, RetryAction::Finish(Err(Failure::MaxAttemptsExceeded)))
                } else {
                    (RetryController { attempts: (self.attempts + 1) as u32, ..self },
                     RetryAction::RetryAfter(wait))
                }
            },
            Outcome::TransportFailure => {
                if self.attempts >= self.max_attempts {
                    (self, RetryAction::Finish(Err(Failure::MaxAttemptsExceeded)))
                } else {
                    (RetryController { attempts: (self.attempts + 1) as u32, ..self },
                     RetryAction::RetryNow)
                }
            },
        }
    }

    /// A fresh controller: no retries made yet.
    pub fn new(max_attempts: u32) -> (r: RetryController)
        ensures
            r.attempts == 0,
            r.max_attempts == max_attempts,
            r.wf(),
    {
        RetryController { attempts: 0, max_attempts }
    }

    /// A fresh controller with the default ceiling.
    pub fn with_default_limit() -> (r: RetryController)
        ensures
            r.attempts == 0,
            r.max_attempts == DEFAULT_MAX_ATTEMPTS,
            r.wf(),
    {
        RetryController::new(DEFAULT_MAX_ATTEMPTS)
    }

    /// Feeds the outcome of the latest attempt and says what to do next.
    pub fn on_outcome<T>(&mut self, o: Outcome<T>) -> (r: RetryAction<T>)
        requires
            old(self).wf(),
        ensures
            (*final(self), r) == old(self).step_spec(o),
            final(self).wf(),
            final(self).max_attempts == old(self).max_attempts,
            final(self).attempts >= old(self).attempts,
    {
        match o {
            Outcome::Success(v) => RetryAction::Finish(Ok(v)),
            Outcome::Fatal(f) => RetryAction::Finish(Err(f)),
            Outcome::RateLimited(wait) => {
                if self.attempts >= self.max_attempts {
                    RetryAction::Finish(Err(Failure::MaxAttemptsExceeded))
                } else {
                    self.attempts = self.attempts + 1;
                    RetryAction::RetryAfter(wait)
                }
            },
            Outcome::TransportFailure => {
                if self.attempts >= self.max_attempts {
                    RetryAction::Finish(Err(Failure::MaxAttemptsExceeded))
                } else {
                    self.attempts = self.attempts + 1;
                    RetryAction::RetryNow
                }
            },
        }
    }
}

/// Feeds `outcomes` to `c`, one per attempt, until the task finishes:
/// `Some((n, r))` when the `n`-th outcome ends it with `r`, `None` when the
/// outcomes run out first.
pub open spec fn run_attempts<T>(c: RetryController, outcomes: Seq<Outcome<T>>) -> Option<(nat, Result<T, Failure>)>
    decreases outcomes.len(),
{
    if outcomes.len() == 0 {
        None
    } else {
        let (next, action) = c.step_spec(outcomes[0]);
        match action {
            RetryAction::Finish(r) => Some((1, r)),
            _ => match run_attempts(next, outcomes.drop_first()) {
                Some((n, r)) => Some((n + 1, r)),
                None => None,
            },
        }
    }
}

pub open spec fn is_rate_limited<T>(o: Outcome<T>) -> bool {
    o is RateLimited
}

proof fn lemma_throttled_run<T>(c: RetryController, outcomes: Seq<Outcome<T>>)
    requires
        c.wf(),
        outcomes.len() >= c.max_attempts - c.attempts + 1,
        forall|i: int| 0 <= i < outcomes.len() ==> is_rate_limited(#[trigger] outcomes[i]),
    ensures
        run_attempts(c, outcomes) == Some::<(nat, Result<T, Failure>)>(
            ((c.max_attempts - c.attempts + 1) as nat, Err(Failure::MaxAttemptsExceeded)),
        ),
    decreases outcomes.len(),
{
    assert(is_rate_limited(outcomes[0]));
    if c.attempts < c.max_attempts {
        let (next, _) = c.step_spec(outcomes[0]);
        let rest = outcomes.drop_first();
        assert forall|i: int| 0 <= i < rest.len() implies is_rate_limited(#[trigger] rest[i]) by {
            assert(rest[i] == outcomes[i + 1]);
        }
        lemma_throttled_run(next, rest);
    }
}

/// A task that is throttled on every attempt ends with
/// `MaxAttemptsExceeded` after exactly `max_attempts + 1` attempts, so the
/// retry count never passes its ceiling.
pub proof fn lemma_always_throttled_gives_up<T>(max_attempts: u32, outcomes: Seq<Outcome<T>>)
    requires
        outcomes.len() >= max_attempts + 1,
        forall|i: int| 0 <= i < outcomes.len() ==> is_rate_limited(#[trigger] outcomes[i]),
    ensures
        run_attempts(RetryController { attempts: 0, max_attempts }, outcomes)
            == Some::<(nat, Result<T, Failure>)>(((max_attempts + 1) as nat, Err(Failure::MaxAttemptsExceeded))),
{
    lemma_throttled_run(RetryController { attempts: 0, max_attempts }, outcomes);
}

/// A 413 answer ends the task on the attempt that received it, with no retry,
/// whatever the outcomes after it would have been.
pub proof fn lemma_too_large_is_final<T>(c: RetryController, outcomes: Seq<Outcome<T>>)
    requires
        c.wf(),
        outcomes.len() >= 1,
        outcomes[0] == Outcome::<T>::Fatal(Failure::TooLarge),
    ensures
        run_attempts(c, outcomes) == Some::<(nat, Result<T, Failure>)>((1, Err(Failure::TooLarge))),
        c.step_spec(outcomes[0]).0 == c,
{
}

} // verus!
