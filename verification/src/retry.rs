//! The retry loop as a state machine.
//!
//! With a retry count of `n` the wrapper makes at most `n` attempts. The first
//! `n - 1` of them run inside the loop, and whether one of them ends the run
//! depends on the mode:
//!
//! * in loose mode each is made behind a panic boundary, and the run ends
//!   with the first attempt that passes; failures and panics are dropped;
//! * in strict mode each is made directly, and the run ends with the first
//!   attempt that does not pass; an attempt that passes is followed by the
//!   next one.
//!
//! The last attempt is made directly, and whatever it comes to is what the
//! caller sees.
//!
//! [`RetryLoop`] makes these decisions one at a time: the caller asks how to
//! make the next attempt, makes it, and reports the outcome. [`settles_at`]
//! says the same of a whole run at once.

use vstd::prelude::*;
use crate::config::RetryConfig;
use crate::outcome::Outcome;

verus! {

/// How an attempt is to be made.
#[derive(Clone, Copy, Debug, PartialEq, Eq, Structural)]
pub enum Attempt {
    /// Inside the loop and behind a panic boundary: a panic is caught and
    /// reported as [`Outcome::Panicked`].
    Guarded,
    /// Inside the loop and called directly: a panic unwinds through the
    /// wrapper.
    Direct,
    /// The last attempt, called directly, its result returned as it is.
    Final,
}

/// What follows an attempt.
#[derive(Clone, Copy, Debug, PartialEq, Eq, Structural)]
pub enum Verdict {
    /// The outcome is dropped and another attempt is made.
    Retry,
    /// The run is over and this attempt's outcome is the caller's.
    Return,
}

/// A run in progress.
#[derive(Clone, Copy, Debug, PartialEq, Eq, Structural)]
pub struct RetryLoop {
    /// Whether the run is strict.
    pub strict: bool,
    /// How many attempts are still to be made inside the loop, before the
    /// final one.
    pub remaining: usize,
}

/// Whether an attempt inside the loop ends the run.
pub open spec fn stops(strict: bool, outcome: Outcome) -> bool {
    if strict {
        outcome != Outcome::Passed
    } else {
        outcome == Outcome::Passed
    }
}

/// The run under `config` whose attempts come to `outcomes`, in that order,
/// ends with attempt number `i` (counted from zero): no earlier attempt
/// ended it, and attempt `i` either ends it or is the final one.
pub open spec fn settles_at(config: RetryConfig, outcomes: Seq<Outcome>, i: int) -> bool {
    &&& 0 <= i < config.retries
    &&& i < outcomes.len()
    &&& (i == config.retries - 1 || stops(config.strict, outcomes[i]))
    &&& forall|j: int| 0 <= j < i ==> !stops(config.strict, #[trigger] outcomes[j])
}

impl RetryLoop {
    /// How the next attempt of this run is to be made.
    pub open spec fn spec_next_attempt(&self) -> Attempt {
        if self.remaining == 0 {
            Attempt::Final
        } else if self.strict {
            Attempt::Direct
        } else {
            Attempt::Guarded
        }
    }

    /// What follows an attempt of this run that came to `outcome`.
    pub open spec fn spec_verdict(&self, outcome: Outcome) -> Verdict {
        if self.remaining == 0 || stops(self.strict, outcome) {
            Verdict::Return
        } else {
            Verdict::Retry
        }
    }

    /// Starts a run. A retry count of zero leaves no attempt to make and is
    /// not accepted.
    pub fn new(config: RetryConfig) -> (run: RetryLoop)
        requires
            config.retries >= 1,
        ensures
            run.strict == config.strict,
            run.remaining == config.retries - 1,
    {
        RetryLoop { strict: config.strict, remaining: config.retries - 1 }
    }

    /// Starts a run where the retry count allows one: `None` exactly when the
    /// count is zero.
    pub fn begin(config: RetryConfig) -> (run: Option<RetryLoop>)
        ensures
            config.retries == 0 ==> run is None,
            config.retries >= 1 ==> run == Some(
                RetryLoop { strict: config.strict, remaining: (config.retries - 1) as usize },
            ),
    {
        if config.retries == 0 {
            None
        } else {
            Some(RetryLoop::new(config))
        }
    }

    /// Says how the next attempt is to be made.
    pub fn next_attempt(&self) -> (a: Attempt)
        ensures
            a == self.spec_next_attempt(),
    {
        if self.remaining == 0 {
            Attempt::Final
        } else if self.strict {
            Attempt::Direct
        } else {
            Attempt::Guarded
        }
    }

    /// Takes the outcome of the attempt that was just made and says what
    /// follows. On `Retry` one attempt fewer is left in the loop; on `Return`
    /// the run stays as it was.
    pub fn observe(&mut self, outcome: Outcome) -> (v: Verdict)
        ensures
            v == old(self).spec_verdict(outcome),
            final(self).strict == old(self).strict,
            v == Verdict::Retry ==> final(self).remaining == old(self).remaining - 1,
            v == Verdict::Return ==> final(self).remaining == old(self).remaining,
    {
        if self.remaining == 0 {
            return Verdict::Return;
        }
        let ends = match outcome {
            Outcome::Passed => !self.strict,
            Outcome::Failed => self.strict,
            Outcome::Panicked => self.strict,
        };
        if ends {
            Verdict::Return
        } else {
            self.remaining = self.remaining - 1;
            Verdict::Retry
        }
    }
}

/// Runs the state machine over a script of outcomes and returns the number
/// of the attempt that ends the run, or `None` where the script is over
/// before the run is (or the retry count is zero).
pub fn settle(config: RetryConfig, outcomes: &Vec<Outcome>) -> (r: Option<usize>)
    ensures
        match r {
            Some(i) => settles_at(config, outcomes@, i as int),
            None => forall|i: int| !settles_at(config, outcomes@, i),
        },
{
    let mut run = match RetryLoop::begin(config) {
        Some(run) => run,
        None => { return None; },
    };
    let mut i: usize = 0;
    while i < outcomes.len()
        invariant
            config.retries >= 1,
            run.strict == config.strict,
            i <= outcomes@.len(),
            i + run.remaining == config.retries - 1,
            forall|j: int| 0 <= j < i ==> !stops(config.strict, #[trigger] outcomes@[j]),
        decreases outcomes@.len() - i,
    {
        match run.observe(outcomes[i]) {
            Verdict::Return => { return Some(i); },
            Verdict::Retry => {},
        }
        i = i + 1;
    }
    proof {
        assert forall|k: int| !settles_at(config, outcomes@, k) by {
            if settles_at(config, outcomes@, k) {
                assert(k < i);
                assert(!stops(config.strict, outcomes@[k]));
            }
        }
    }
    None
}

/// A run ends with one attempt only: two numbers that both settle a run are
/// the same number.
pub proof fn law_settles_once(config: RetryConfig, outcomes: Seq<Outcome>, i: int, j: int)
    requires
        settles_at(config, outcomes, i),
        settles_at(config, outcomes, j),
    ensures
        i == j,
{
    if i < j {
        assert(!stops(config.strict, outcomes[i]));
    } else if j < i {
        assert(!stops(config.strict, outcomes[j]));
    }
}

/// In loose mode, a test that does not pass on its first `k` attempts and
/// passes on the next, with `k` below the retry count, ends the run with that
/// passing attempt.
pub proof fn law_loose_returns_first_pass(config: RetryConfig, outcomes: Seq<Outcome>, k: int)
    requires
        !config.strict,
        0 <= k < config.retries,
        k < outcomes.len(),
        forall|j: int| 0 <= j < k ==> #[trigger] outcomes[j] != Outcome::Passed,
        outcomes[k] == Outcome::Passed,
    ensures
        settles_at(config, outcomes, k),
{
}

/// In loose mode, a test that does not pass on any attempt of the loop ends
/// the run with the final attempt, whose outcome, a failure or a panic
/// included, is the caller's.
pub proof fn law_loose_exhausted_returns_final(config: RetryConfig, outcomes: Seq<Outcome>)
    requires
        !config.strict,
        config.retries >= 1,
        outcomes.len() >= config.retries,
        forall|j: int| 0 <= j < config.retries - 1 ==> #[trigger] outcomes[j] != Outcome::Passed,
    ensures
        settles_at(config, outcomes, config.retries - 1),
{
}

/// In strict mode, the first attempt that does not pass ends the run, and
/// every passing attempt before it was followed by another.
pub proof fn law_strict_returns_first_failure(config: RetryConfig, outcomes: Seq<Outcome>, k: int)
    requires
        config.strict,
        0 <= k < config.retries,
        k < outcomes.len(),
        forall|j: int| 0 <= j < k ==> #[trigger] outcomes[j] == Outcome::Passed,
        outcomes[k] != Outcome::Passed,
    ensures
        settles_at(config, outcomes, k),
{
}

/// In strict mode, a test that passes on every attempt of the loop is run
/// again each time, and the run ends with the final attempt.
pub proof fn law_strict_passes_run_to_final(config: RetryConfig, outcomes: Seq<Outcome>)
    requires
        config.strict,
        config.retries >= 1,
        outcomes.len() >= config.retries,
        forall|j: int| 0 <= j < config.retries - 1 ==> #[trigger] outcomes[j] == Outcome::Passed,
    ensures
        settles_at(config, outcomes, config.retries - 1),
{
}

/// With a retry count of one the run is its first attempt, in either mode and
/// whatever that attempt comes to: it is made as the final attempt, and no
/// other attempt settles the run.
pub proof fn law_single_attempt(config: RetryConfig, outcomes: Seq<Outcome>, i: int)
    requires
        config.retries == 1,
        outcomes.len() >= 1,
    ensures
        settles_at(config, outcomes, 0),
        settles_at(config, outcomes, i) ==> i == 0,
        (RetryLoop { strict: config.strict, remaining: 0 }).spec_next_attempt() == Attempt::Final,
        forall|o: Outcome|
            (#[trigger] (RetryLoop { strict: config.strict, remaining: 0 }).spec_verdict(o))
                == Verdict::Return,
{
}

} // verus!
