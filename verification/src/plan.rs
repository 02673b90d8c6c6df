//! The layout of the generated wrapper.
//!
//! From the attributes and the first parameter of the marked function,
//! [`flaky`] works out which harness the function is written for and what
//! the wrapper around it looks like, or why no wrapper can be generated.

use vstd::prelude::*;
use crate::attrs::{positions, last_position, sort_attrs, AttrKind, AttrPath, SortedAttrs};

verus! {

/// The test harness that a function is written for.
#[derive(Clone, Copy, Debug, PartialEq, Eq, Structural)]
pub enum Flavor {
    /// The built-in harness, or none at all: a synchronous function without
    /// arguments.
    Plain,
    /// The async runtime's harness: an async function without arguments.
    Tokio,
    /// The harness that hands out a fixture: an async function whose first
    /// parameter is the fixture.
    Sqlx,
}

/// The panic boundary around an attempt made inside the loop in loose mode.
#[derive(Clone, Copy, Debug, PartialEq, Eq, Structural)]
pub enum Guard {
    /// The standard library's `catch_unwind` around the function itself.
    Unwind,
    /// The future of a call without arguments, wrapped to catch a panic.
    FutureUnwind,
    /// The future of a call on a clone of the fixture, asserted unwind safe
    /// and wrapped to catch a panic.
    FixtureFutureUnwind,
}

/// Why no wrapper can be generated.
#[derive(Clone, Copy, Debug, PartialEq, Eq, Structural)]
pub enum MacroError {
    /// The marker was given arguments; it takes none.
    UnexpectedArguments,
    /// More than one kind of harness marker is on the function.
    ConflictingMarkers,
    /// The function is written for the fixture harness and has no parameter.
    MissingFixture,
    /// The function is written for the fixture harness and its first
    /// parameter is not a plain name.
    UnsupportedFixture,
}

/// A parameter of the marked function, as far as the rewriting reads it.
#[derive(Clone, Debug, PartialEq, Eq)]
pub enum Param {
    /// `self` in one of its forms.
    Receiver,
    /// A typed parameter bound to a name.
    Named(String),
    /// A typed parameter bound by any other pattern.
    Pattern,
}

/// What the generated wrapper looks like. Attributes are named by their
/// position in the marked function's list.
#[derive(Clone, Debug, PartialEq, Eq)]
pub struct WrapperPlan {
    /// The harness the function is written for.
    pub flavor: Flavor,
    /// The harness marker, put first on the wrapper; `None` where the
    /// function has none.
    pub harness_attr: Option<usize>,
    /// The attributes put on the wrapper after the marker, in this order.
    pub pass_through: Vec<usize>,
    /// The attributes left on the function itself, which is nested in the
    /// wrapper.
    pub kept: Vec<usize>,
    /// The name of the fixture. Where there is one, every attempt, inside
    /// the loop or final, is called on a clone of it made for that attempt;
    /// where there is none, every attempt is called without arguments.
    pub fixture: Option<String>,
}

/// Where the crate with the runtime support was found among the
/// dependencies of the crate being compiled.
#[derive(Clone, Debug, PartialEq, Eq)]
pub enum Runtime {
    /// The crate being compiled is the support crate itself.
    Itself,
    /// The support crate is a dependency under this name.
    Named(String),
}

impl Runtime {
    /// The identifier by which the generated code names the support crate.
    pub open spec fn spec_ident(&self) -> Seq<char> {
        match self {
            Runtime::Itself => "mark_flaky_tests"@,
            Runtime::Named(name) => name@,
        }
    }

    /// Gives the identifier by which the generated code names the support
    /// crate.
    pub fn ident(&self) -> (r: String)
        ensures
            r@ == self.spec_ident(),
    {
        match self {
            Runtime::Itself => "mark_flaky_tests".to_owned(),
            Runtime::Named(name) => name.clone(),
        }
    }
}

impl MacroError {
    /// The text of the diagnostic.
    pub open spec fn spec_message(self) -> Seq<char> {
        match self {
            MacroError::UnexpectedArguments => "#[flaky] doesn't currently take arguments"@,
            MacroError::ConflictingMarkers =>
                "at most one of `tokio::test`, `sqlx::test`, or `test` attribute is allowed at a time"@,
            MacroError::MissingFixture => "pool"@,
            MacroError::UnsupportedFixture => "unsupported pattern"@,
        }
    }

    /// Gives the text of the diagnostic.
    pub fn message(self) -> (r: &'static str)
        ensures
            r@ == self.spec_message(),
    {
        match self {
            MacroError::UnexpectedArguments => "#[flaky] doesn't currently take arguments",
            MacroError::ConflictingMarkers =>
                "at most one of `tokio::test`, `sqlx::test`, or `test` attribute is allowed at a time",
            MacroError::MissingFixture => "pool",
            MacroError::UnsupportedFixture => "unsupported pattern",
        }
    }
}

impl Flavor {
    /// Whether the wrapper is an async function that awaits each attempt
    /// before it looks at the result.
    pub open spec fn spec_is_async(self) -> bool {
        self != Flavor::Plain
    }

    /// The panic boundary used in loose mode.
    pub open spec fn spec_guard(self) -> Guard {
        match self {
            Flavor::Plain => Guard::Unwind,
            Flavor::Tokio => Guard::FutureUnwind,
            Flavor::Sqlx => Guard::FixtureFutureUnwind,
        }
    }

    /// Says whether the wrapper is async and awaits each attempt.
    pub fn is_async(self) -> (r: bool)
        ensures
            r == self.spec_is_async(),
    {
        match self {
            Flavor::Plain => false,
            Flavor::Tokio => true,
            Flavor::Sqlx => true,
        }
    }

    /// Says which panic boundary the wrapper uses in loose mode.
    pub fn guard(self) -> (g: Guard)
        ensures
            g == self.spec_guard(),
    {
        match self {
            Flavor::Plain => Guard::Unwind,
            Flavor::Tokio => Guard::FutureUnwind,
            Flavor::Sqlx => Guard::FixtureFutureUnwind,
        }
    }
}

/// The harness for the markers found: at most one kind of marker may be
/// there, and a function without any is taken as plain.
pub open spec fn spec_flavor(test: Option<usize>, tokio: Option<usize>, sqlx: Option<usize>) -> Result<
    Flavor,
    MacroError,
> {
    match (tokio, sqlx, test) {
        (Some(_), None, None) => Ok(Flavor::Tokio),
        (None, Some(_), None) => Ok(Flavor::Sqlx),
        (None, None, _) => Ok(Flavor::Plain),
        _ => Err(MacroError::ConflictingMarkers),
    }
}

/// The name of the fixture: the first parameter, which must be bound to a
/// plain name.
pub open spec fn spec_fixture(params: Seq<Param>) -> Result<Seq<char>, MacroError> {
    if params.len() == 0 {
        Err(MacroError::MissingFixture)
    } else {
        match params[0] {
            Param::Named(name) => Ok(name@),
            _ => Err(MacroError::UnsupportedFixture),
        }
    }
}

/// The harness that a function with the attributes `attrs` is written for.
pub open spec fn flavor_of(attrs: Seq<AttrPath>) -> Result<Flavor, MacroError> {
    spec_flavor(
        last_position(attrs, AttrKind::Test),
        last_position(attrs, AttrKind::TokioTest),
        last_position(attrs, AttrKind::SqlxTest),
    )
}

/// The harness marker that goes back on the wrapper.
pub open spec fn harness_attr_of(attrs: Seq<AttrPath>) -> Option<usize> {
    match flavor_of(attrs) {
        Ok(Flavor::Tokio) => last_position(attrs, AttrKind::TokioTest),
        Ok(Flavor::Sqlx) => last_position(attrs, AttrKind::SqlxTest),
        _ => last_position(attrs, AttrKind::Test),
    }
}

/// Why no wrapper is generated, `None` where one is. Arguments to the marker
/// are looked at first, then the harness markers, then the fixture.
pub open spec fn rejection(args_empty: bool, attrs: Seq<AttrPath>, params: Seq<Param>) -> Option<
    MacroError,
> {
    if !args_empty {
        Some(MacroError::UnexpectedArguments)
    } else {
        match flavor_of(attrs) {
            Err(e) => Some(e),
            Ok(Flavor::Sqlx) => match spec_fixture(params) {
                Err(e) => Some(e),
                Ok(_) => None,
            },
            Ok(_) => None,
        }
    }
}

/// Detects the harness from the markers found.
pub fn detect_flavor(sorted: &SortedAttrs) -> (r: Result<Flavor, MacroError>)
    ensures
        r == spec_flavor(sorted.test, sorted.tokio, sorted.sqlx),
{
    match (&sorted.tokio, &sorted.sqlx, &sorted.test) {
        (Some(_), None, None) => Ok(Flavor::Tokio),
        (None, Some(_), None) => Ok(Flavor::Sqlx),
        (None, None, _) => Ok(Flavor::Plain),
        _ => Err(MacroError::ConflictingMarkers),
    }
}

/// Takes the name of the fixture from the parameters.
pub fn fixture_name(params: &Vec<Param>) -> (r: Result<String, MacroError>)
    ensures
        match r {
            Ok(name) => spec_fixture(params@) == Ok::<Seq<char>, MacroError>(name@),
            Err(e) => spec_fixture(params@) == Err::<Seq<char>, MacroError>(e),
        },
{
    if params.len() == 0 {
        return Err(MacroError::MissingFixture);
    }
    match &params[0] {
        Param::Named(name) => Ok(name.clone()),
        _ => Err(MacroError::UnsupportedFixture),
    }
}

/// Lays out the wrapper for a function marked as flaky.
///
/// `args_empty` says whether the marker was written without arguments,
/// `attrs` are the paths of the function's attributes and `params` its
/// parameters. The plan keeps the harness marker and moves `#[ignore]` and
/// `#[should_panic]` to the wrapper, in their order; every other attribute
/// stays on the function itself. For the fixture harness the plan names
/// the fixture, which each attempt receives as a clone of its own.
pub fn flaky(args_empty: bool, attrs: &Vec<AttrPath>, params: &Vec<Param>) -> (r: Result<
    WrapperPlan,
    MacroError,
>)
    ensures
        match r {
            Ok(plan) => {
                &&& rejection(args_empty, attrs@, params@) is None
                &&& flavor_of(attrs@) == Ok::<Flavor, MacroError>(plan.flavor)
                &&& plan.harness_attr == harness_attr_of(attrs@)
                &&& plan.pass_through@ == positions(attrs@, AttrKind::PassThrough)
                &&& plan.kept@ == positions(attrs@, AttrKind::Other)
                &&& match plan.fixture {
                    Some(name) => plan.flavor == Flavor::Sqlx && spec_fixture(params@) == Ok::<
                        Seq<char>,
                        MacroError,
                    >(name@),
                    None => plan.flavor != Flavor::Sqlx,
                }
            },
            Err(e) => rejection(args_empty, attrs@, params@) == Some(e),
        },
{
    if !args_empty {
        return Err(MacroError::UnexpectedArguments);
    }
    let sorted = sort_attrs(attrs);
    let flavor = match detect_flavor(&sorted) {
        Ok(flavor) => flavor,
        Err(e) => { return Err(e); },
    };
    let (harness_attr, fixture) = match flavor {
        Flavor::Tokio => (sorted.tokio, None),
        Flavor::Sqlx => {
            match fixture_name(params) {
                Ok(name) => (sorted.sqlx, Some(name)),
                Err(e) => { return Err(e); },
            }
        },
        Flavor::Plain => (sorted.test, None),
    };
    Ok(
        WrapperPlan {
            flavor,
            harness_attr,
            pass_through: sorted.pass_through,
            kept: sorted.kept,
            fixture,
        },
    )
}

} // verus!
