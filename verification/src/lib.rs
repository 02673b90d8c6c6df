//! Retry support for flaky tests.
//!
//! A test marked as flaky is rewritten into a wrapper that runs the test's
//! body several times before it lets a failure through. This crate holds the
//! rules of that rewriting and of the retry loop it produces:
//!
//! * [`config`] reads the retry count and the strictness flag from the text of
//!   the two environment variables;
//! * [`outcome`] says which results count as failures;
//! * [`retry`] is the retry loop as a state machine, with the laws it obeys;
//! * [`driver`] runs that loop around a function value;
//! * [`attrs`] sorts the attributes of the marked function;
//! * [`plan`] detects which test harness the function is written for and lays
//!   out the wrapper that is generated for it.

pub mod config;
pub mod outcome;
pub mod retry;
pub mod attrs;
pub mod plan;
pub mod driver;
