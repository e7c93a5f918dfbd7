//! Bounded retry with a fixed backoff.
//!
//! The same decision rule drives resource bootstrap (a broker client, a
//! database connection) and the per-message send of the publisher worker.
//! The caller performs each attempt and reports its outcome; the state says
//! whether to back off and try again, to stop with success, or to give up.
use vstd::prelude::*;

verus! {

/// What became of one attempt.
#[derive(Debug, Clone, Copy, PartialEq, Eq, Structural)]
pub enum AttemptOutcome {
    Succeeded,
    Failed,
}

/// What the caller does next.
#[derive(Debug, Clone, Copy, PartialEq, Eq, Structural)]
pub enum RetryAction {
    /// The attempt succeeded: stop and use the result.
    Done,
    /// The attempt failed and attempts remain: sleep the backoff, then try again.
    Backoff,
    /// The attempt failed and it was the last one: report exhaustion once.
    GiveUp,
}

/// Attempts made so far against a fixed budget.
#[derive(Debug, Clone, Copy, PartialEq, Eq, Structural)]
pub struct RetryState {
    pub attempts_made: u64,
    pub max_attempts: u64,
    pub finished: bool,
}

/// The state before any attempt, for a budget of `max` attempts.
pub open spec fn fresh(max: nat) -> RetryState {
    RetryState { attempts_made: 0, max_attempts: max as u64, finished: false }
}

impl RetryState {
    pub open spec fn wf(self) -> bool {
        &&& self.attempts_made <= self.max_attempts
        &&& self.max_attempts <= u32::MAX as u64 + 1
    }

    /// Whether another attempt is to be made.
    pub open spec fn may_attempt(self) -> bool {
        !self.finished && self.attempts_made < self.max_attempts
    }

    /// Bootstrap of a resource: attempts numbered `1..=max_attempts`.
    pub fn for_bootstrap(max_attempts: u32) -> (r: RetryState)
        ensures
            r == fresh(max_attempts as nat),
            r.wf(),
    {
        RetryState { attempts_made: 0, max_attempts: max_attempts as u64, finished: false }
    }

    /// Send of one message: the first try plus `max_retry_attempts` retries.
    pub fn for_send(max_retry_attempts: u32) -> (r: RetryState)
        ensures
            r == fresh(max_retry_attempts as nat + 1),
            r.wf(),
    {
        RetryState {
            attempts_made: 0,
            max_attempts: max_retry_attempts as u64 + 1,
            finished: false,
        }
    }

    /// Whether another attempt is to be made.
    pub fn can_attempt(&self) -> (r: bool)
        ensures
            r == self.may_attempt(),
    {
        !self.finished && self.attempts_made < self.max_attempts
    }

    /// The number, counted from 1, of the attempt about to be made.
    pub fn next_attempt_number(&self) -> (r: u64)
        requires
            self.wf(),
            self.may_attempt(),
        ensures
            r == self.attempts_made + 1,
    {
        self.attempts_made + 1
    }

    /// Records the outcome of the attempt just made and says what to do next.
    pub fn record(&mut self, outcome: AttemptOutcome) -> (r: RetryAction)
        requires
            old(self).wf(),
            old(self).may_attempt(),
        ensures
            (*final(self), r) == step(*old(self), outcome),
            final(self).wf(),
    {
        self.attempts_made = self.attempts_made + 1;
        match outcome {
            AttemptOutcome::Succeeded => {
                self.finished = true;
                RetryAction::Done
            },
            AttemptOutcome::Failed => {
                if self.attempts_made < self.max_attempts {
                    RetryAction::Backoff
                } else {
                    self.finished = true;
                    RetryAction::GiveUp
                }
            },
        }
    }
}

/// One attempt: it is counted, and its outcome decides the next action.
pub open spec fn step(s: RetryState, o: AttemptOutcome) -> (RetryState, RetryAction) {
    let made = (s.attempts_made + 1) as u64;
    match o {
        AttemptOutcome::Succeeded => (
            RetryState { attempts_made: made, finished: true, ..s },
            RetryAction::Done,
        ),
        AttemptOutcome::Failed => if made < s.max_attempts {
            (RetryState { attempts_made: made, ..s }, RetryAction::Backoff)
        } else {
            (RetryState { attempts_made: made, finished: true, ..s }, RetryAction::GiveUp)
        },
    }
}

/// Drives the state through the outcomes in turn while attempts are to be
/// made; gives the final state and the actions taken, one per attempt.
pub open spec fn run(s: RetryState, outcomes: Seq<AttemptOutcome>) -> (RetryState, Seq<RetryAction>)
    decreases outcomes.len(),
{
    if outcomes.len() == 0 || !s.may_attempt() {
        (s, Seq::empty())
    } else {
        let (s1, a) = step(s, outcomes[0]);
        let (s2, rest) = run(s1, outcomes.drop_first());
        (s2, seq![a] + rest)
    }
}

proof fn lemma_failures_then(s: RetryState, outcomes: Seq<AttemptOutcome>, n: nat)
    requires
        s.wf(),
        !s.finished,
        s.attempts_made + n < s.max_attempts,
        outcomes.len() > n,
        forall|i: int| 0 <= i < n ==> outcomes[i] == AttemptOutcome::Failed,
    ensures
        ({
            let (s2, acts) = run(s, outcomes);
            let (t, r) = run(
                RetryState { attempts_made: (s.attempts_made + n) as u64, ..s },
                outcomes.subrange(n as int, outcomes.len() as int),
            );
            &&& s2 == t
            &&& acts.len() == n + r.len()
            &&& forall|i: int| 0 <= i < n ==> acts[i] == RetryAction::Backoff
            &&& forall|i: int| 0 <= i < r.len() ==> acts[n + i] == r[i]
        }),
    decreases n,
{
    if n == 0 {
        assert(outcomes.subrange(0, outcomes.len() as int) =~= outcomes);
        assert(RetryState { attempts_made: (s.attempts_made + 0) as u64, ..s } == s);
    } else {
        let (s1, a) = step(s, outcomes[0]);
        assert(a == RetryAction::Backoff);
        let tail = outcomes.drop_first();
        assert forall|i: int| 0 <= i < n - 1 implies tail[i] == AttemptOutcome::Failed by {
            assert(tail[i] == outcomes[i + 1]);
        }
        lemma_failures_then(s1, tail, (n - 1) as nat);
        assert(tail.subrange((n - 1) as int, tail.len() as int) =~= outcomes.subrange(
            n as int,
            outcomes.len() as int,
        ));
    }
}

/// A send whose transport always fails is attempted exactly
/// `max_retry_attempts + 1` times: every attempt but the last is followed by a
/// backoff, the last one by a single exhaustion, after which the message is
/// dropped and nothing more is attempted.
pub proof fn lemma_always_failing_send(max_retry_attempts: u32, outcomes: Seq<AttemptOutcome>)
    requires
        outcomes.len() > max_retry_attempts,
        forall|i: int| 0 <= i < outcomes.len() ==> outcomes[i] == AttemptOutcome::Failed,
    ensures
        ({
            let (s, acts) = run(fresh(max_retry_attempts as nat + 1), outcomes);
            &&& acts.len() == max_retry_attempts as nat + 1
            &&& forall|i: int| 0 <= i < max_retry_attempts ==> acts[i] == RetryAction::Backoff
            &&& acts[max_retry_attempts as int] == RetryAction::GiveUp
            &&& s.attempts_made == max_retry_attempts as nat + 1
            &&& !s.may_attempt()
        }),
{
    let k = max_retry_attempts as nat;
    let s0 = fresh(k + 1);
    lemma_failures_then(s0, outcomes, k);
    let last = RetryState { attempts_made: k as u64, ..s0 };
    let rest = outcomes.subrange(k as int, outcomes.len() as int);
    assert(rest[0] == outcomes[k as int]);
    let (s1, a) = step(last, rest[0]);
    assert(a == RetryAction::GiveUp);
    assert(!s1.may_attempt());
    let (t, r) = run(last, rest);
    assert(run(s1, rest.drop_first()) == (s1, Seq::<RetryAction>::empty()));
    assert(r =~= seq![RetryAction::GiveUp]);
    assert(t == s1);
    let (s2, acts) = run(s0, outcomes);
    assert(acts[k as int + 0] == r[0]);
}

/// Bootstrap with a budget of `max_attempts` whose first `n` attempts fail and
/// whose next one succeeds, where `n < max_attempts`: it succeeds on attempt
/// `n + 1`, having backed off exactly `n` times, once after each failure.
pub proof fn lemma_bootstrap_succeeds_after_failures(
    max_attempts: u32,
    n: nat,
    outcomes: Seq<AttemptOutcome>,
)
    requires
        n < max_attempts,
        outcomes.len() == n + 1,
        forall|i: int| 0 <= i < n ==> outcomes[i] == AttemptOutcome::Failed,
        outcomes[n as int] == AttemptOutcome::Succeeded,
    ensures
        ({
            let (s, acts) = run(fresh(max_attempts as nat), outcomes);
            &&& acts.len() == n + 1
            &&& forall|i: int| 0 <= i < n ==> acts[i] == RetryAction::Backoff
            &&& acts[n as int] == RetryAction::Done
            &&& s.attempts_made == n + 1
            &&& s.finished
        }),
{
    let s0 = fresh(max_attempts as nat);
    lemma_failures_then(s0, outcomes, n);
    let last = RetryState { attempts_made: n as u64, ..s0 };
    let rest = outcomes.subrange(n as int, outcomes.len() as int);
    assert(rest[0] == outcomes[n as int]);
    let (s1, a) = step(last, rest[0]);
    assert(last.may_attempt());
    assert(a == RetryAction::Done);
    assert(run(s1, rest.drop_first()) == (s1, Seq::<RetryAction>::empty()));
    let (t, r) = run(last, rest);
    assert(r =~= seq![RetryAction::Done]);
    assert(t == s1);
    let (s2, acts) = run(s0, outcomes);
    assert(acts[n as int + 0] == r[0]);
}

} // verus!
