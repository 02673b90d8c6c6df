//! A retry loop around a function value.
//!
//! [`run`] makes the attempts that [`RetryLoop`] asks for by calling a
//! function with the number of the attempt and the way it is to be made. The
//! function returns `Some` with the test's result, or `None` where the
//! attempt panicked and the panic was caught.
//!
//! [`run_with_fixture`] does the same for a test that works on a fixture:
//! the caller's fixture is only borrowed, and each attempt is handed a clone
//! of it that was made for that attempt.

use vstd::prelude::*;
use crate::config::RetryConfig;
use crate::outcome::{classify_guarded, spec_classify_guarded, IsFailure, Outcome};
use crate::retry::{settles_at, stops, Attempt, RetryLoop, Verdict};

verus! {

/// How attempt number `i` of a run under `config` is made.
pub open spec fn attempt_kind(config: RetryConfig, i: int) -> Attempt {
    if i == config.retries - 1 {
        Attempt::Final
    } else if config.strict {
        Attempt::Direct
    } else {
        Attempt::Guarded
    }
}

/// Attempt number `i` was made inside the loop and did not end the run: the
/// function returned a value for it that calls for another attempt.
pub open spec fn dropped<R: IsFailure, F: Fn(usize, Attempt) -> Option<R>>(
    config: RetryConfig,
    attempt: F,
    i: int,
) -> bool {
    exists|v: Option<R>|
        #![trigger call_ensures(attempt, (i as usize, attempt_kind(config, i)), v)]
        call_ensures(attempt, (i as usize, attempt_kind(config, i)), v) && !stops(
            config.strict,
            spec_classify_guarded(&v),
        )
}

/// Runs `attempt` until the run is over and returns the number of the
/// attempt that ended it together with what that attempt returned.
///
/// Every attempt before the returned one was made and called for another;
/// the returned one either ends the run by its outcome or is the final one.
pub fn run<R: IsFailure, F: Fn(usize, Attempt) -> Option<R>>(config: RetryConfig, attempt: F) -> (r: (
    usize,
    Option<R>,
))
    requires
        config.retries >= 1,
        forall|i: usize|
            i < config.retries ==> call_requires(
                attempt,
                (i, #[trigger] attempt_kind(config, i as int)),
            ),
    ensures
        r.0 < config.retries,
        call_ensures(attempt, (r.0, attempt_kind(config, r.0 as int)), r.1),
        r.0 == config.retries - 1 || stops(config.strict, spec_classify_guarded(&r.1)),
        forall|j: int| 0 <= j < r.0 ==> #[trigger] dropped(config, attempt, j),
{
    let mut state = RetryLoop::new(config);
    let mut i: usize = 0;
    loop
        invariant
            state.strict == config.strict,
            i + state.remaining == config.retries - 1,
            forall|i: usize|
                i < config.retries ==> call_requires(
                    attempt,
                    (i, #[trigger] attempt_kind(config, i as int)),
                ),
            forall|j: int| 0 <= j < i ==> #[trigger] dropped(config, attempt, j),
        decreases state.remaining,
    {
        let how = state.next_attempt();
        assert(how == attempt_kind(config, i as int));
        let value = attempt(i, how);
        let outcome = classify_guarded(&value);
        match state.observe(outcome) {
            Verdict::Return => { return (i, value); },
            Verdict::Retry => {},
        }
        i = i + 1;
    }
}

/// Where the outcome of each attempt is fixed beforehand, attempt `j` coming
/// to `outcomes[j]` whatever value it returns, what [`run`] returns is the
/// attempt at which the run under `config` settles: every law of a settled
/// run holds of the attempt that `run` reports.
pub proof fn law_run_settles<R: IsFailure, F: Fn(usize, Attempt) -> Option<R>>(
    config: RetryConfig,
    attempt: F,
    outcomes: Seq<Outcome>,
    r: (usize, Option<R>),
)
    requires
        outcomes.len() >= config.retries,
        forall|j: int, v: Option<R>|
            0 <= j < config.retries && #[trigger] call_ensures(
                attempt,
                (j as usize, attempt_kind(config, j)),
                v,
            ) ==> spec_classify_guarded(&v) == outcomes[j],
        r.0 < config.retries,
        call_ensures(attempt, (r.0, attempt_kind(config, r.0 as int)), r.1),
        r.0 == config.retries - 1 || stops(config.strict, spec_classify_guarded(&r.1)),
        forall|j: int| 0 <= j < r.0 ==> #[trigger] dropped(config, attempt, j),
    ensures
        settles_at(config, outcomes, r.0 as int),
{
    let last = r.0 as int;
    assert(call_ensures(attempt, (last as usize, attempt_kind(config, last)), r.1));
    assert forall|j: int| 0 <= j < last implies !stops(config.strict, #[trigger] outcomes[j]) by {
        assert(dropped(config, attempt, j));
    }
}

/// Attempt number `i` was made inside the loop, on a clone of `fixture`, and
/// did not end the run.
pub open spec fn dropped_with<P: Clone, R: IsFailure, F: Fn(usize, Attempt, P) -> Option<R>>(
    config: RetryConfig,
    fixture: P,
    attempt: F,
    i: int,
) -> bool {
    exists|handle: P, v: Option<R>|
        #![trigger call_ensures(attempt, (i as usize, attempt_kind(config, i), handle), v)]
        cloned::<P>(fixture, handle) && call_ensures(
            attempt,
            (i as usize, attempt_kind(config, i), handle),
            v,
        ) && !stops(config.strict, spec_classify_guarded(&v))
}

/// Attempt number `i` was made on a clone of `fixture` and returned `value`.
pub open spec fn made_with<P: Clone, R: IsFailure, F: Fn(usize, Attempt, P) -> Option<R>>(
    config: RetryConfig,
    fixture: P,
    attempt: F,
    i: int,
    value: Option<R>,
) -> bool {
    exists|handle: P|
        #![trigger call_ensures(attempt, (i as usize, attempt_kind(config, i), handle), value)]
        cloned::<P>(fixture, handle) && call_ensures(
            attempt,
            (i as usize, attempt_kind(config, i), handle),
            value,
        )
}

/// The same for [`run_with_fixture`]: where attempt `j` comes to
/// `outcomes[j]` on whatever clone of the fixture it is made, what is
/// returned is the attempt at which the run under `config` settles.
pub proof fn law_run_with_fixture_settles<
    P: Clone,
    R: IsFailure,
    F: Fn(usize, Attempt, P) -> Option<R>,
>(config: RetryConfig, fixture: P, attempt: F, outcomes: Seq<Outcome>, r: (usize, Option<R>))
    requires
        outcomes.len() >= config.retries,
        forall|j: int, handle: P, v: Option<R>|
            0 <= j < config.retries && cloned::<P>(fixture, handle) && #[trigger] call_ensures(
                attempt,
                (j as usize, attempt_kind(config, j), handle),
                v,
            ) ==> spec_classify_guarded(&v) == outcomes[j],
        r.0 < config.retries,
        made_with(config, fixture, attempt, r.0 as int, r.1),
        r.0 == config.retries - 1 || stops(config.strict, spec_classify_guarded(&r.1)),
        forall|j: int| 0 <= j < r.0 ==> #[trigger] dropped_with(config, fixture, attempt, j),
    ensures
        settles_at(config, outcomes, r.0 as int),
{
    let last = r.0 as int;
    assert(made_with(config, fixture, attempt, last, r.1));
    assert forall|j: int| 0 <= j < last implies !stops(config.strict, #[trigger] outcomes[j]) by {
        assert(dropped_with(config, fixture, attempt, j));
    }
}

/// Runs `attempt` on the fixture until the run is over and returns the
/// number of the attempt that ended it together with what that attempt
/// returned.
///
/// Every attempt, the returned one and those before it, was called on a
/// value that cloning the caller's fixture gave; the fixture itself is never
/// handed out, so nothing an attempt does to its clone reaches the next.
pub fn run_with_fixture<P: Clone, R: IsFailure, F: Fn(usize, Attempt, P) -> Option<R>>(
    config: RetryConfig,
    fixture: &P,
    attempt: F,
) -> (r: (usize, Option<R>))
    requires
        config.retries >= 1,
        forall|i: usize, handle: P|
            #![trigger attempt_kind(config, i as int), cloned::<P>(*fixture, handle)]
            i < config.retries && cloned::<P>(*fixture, handle) ==> call_requires(
                attempt,
                (i, attempt_kind(config, i as int), handle),
            ),
    ensures
        r.0 < config.retries,
        made_with(config, *fixture, attempt, r.0 as int, r.1),
        r.0 == config.retries - 1 || stops(config.strict, spec_classify_guarded(&r.1)),
        forall|j: int| 0 <= j < r.0 ==> #[trigger] dropped_with(config, *fixture, attempt, j),
{
    let mut state = RetryLoop::new(config);
    let mut i: usize = 0;
    loop
        invariant
            state.strict == config.strict,
            i + state.remaining == config.retries - 1,
            forall|i: usize, handle: P|
                #![trigger attempt_kind(config, i as int), cloned::<P>(*fixture, handle)]
                i < config.retries && cloned::<P>(*fixture, handle) ==> call_requires(
                    attempt,
                    (i, attempt_kind(config, i as int), handle),
                ),
            forall|j: int| 0 <= j < i ==> #[trigger] dropped_with(config, *fixture, attempt, j),
        decreases state.remaining,
    {
        let how = state.next_attempt();
        assert(how == attempt_kind(config, i as int));
        let handle = fixture.clone();
        assert(cloned::<P>(*fixture, handle));
        let value = attempt(i, how, handle);
        let outcome = classify_guarded(&value);
        match state.observe(outcome) {
            Verdict::Return => { return (i, value); },
            Verdict::Retry => {},
        }
        i = i + 1;
    }
}

} // verus!
