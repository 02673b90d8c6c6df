//! Which results count as failures.

use vstd::prelude::*;

verus! {

/// A result type that can say whether it stands for a failed test.
///
/// This is the only thing the retry loop asks of a test's return value;
/// everything else about the value is passed through untouched.
pub trait IsFailure {
    /// Whether this value is a failure.
    spec fn failed(&self) -> bool;

    /// Whether this value is a failure.
    fn is_failure(&self) -> (r: bool)
        ensures
            r == self.failed(),
    ;
}

/// A test that returns nothing has not failed by returning.
impl IsFailure for () {
    open spec fn failed(&self) -> bool {
        false
    }

    fn is_failure(&self) -> (r: bool) {
        false
    }
}

/// A test that returns a `Result` has failed exactly when it returns `Err`.
impl<T, E> IsFailure for Result<T, E> {
    open spec fn failed(&self) -> bool {
        self is Err
    }

    fn is_failure(&self) -> (r: bool) {
        self.is_err()
    }
}

/// What one attempt came to, as far as the retry loop can tell.
#[derive(Clone, Copy, Debug, PartialEq, Eq, Structural)]
pub enum Outcome {
    /// The test returned a value that is not a failure.
    Passed,
    /// The test returned a value that is a failure.
    Failed,
    /// The test panicked.
    Panicked,
}

/// The outcome of an attempt that returned `value`.
pub open spec fn spec_classify<R: IsFailure>(value: &R) -> Outcome {
    if value.failed() {
        Outcome::Failed
    } else {
        Outcome::Passed
    }
}

/// The outcome of a guarded attempt: `None` stands for a caught panic.
pub open spec fn spec_classify_guarded<R: IsFailure>(caught: &Option<R>) -> Outcome {
    match caught {
        None => Outcome::Panicked,
        Some(value) => spec_classify(value),
    }
}

/// Classifies the value that an attempt returned.
pub fn classify<R: IsFailure>(value: &R) -> (o: Outcome)
    ensures
        o == spec_classify(value),
{
    if value.is_failure() {
        Outcome::Failed
    } else {
        Outcome::Passed
    }
}

/// Classifies what a guarded attempt left behind, `None` being a caught panic.
pub fn classify_guarded<R: IsFailure>(caught: &Option<R>) -> (o: Outcome)
    ensures
        o == spec_classify_guarded(caught),
{
    match caught {
        None => Outcome::Panicked,
        Some(value) => classify(value),
    }
}

} // verus!
