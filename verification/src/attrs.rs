//! The attributes of a function marked as flaky.
//!
//! Only the path of an attribute decides what becomes of it, so an attribute
//! is held here as its path: whether it starts with `::`, and its segments,
//! each an identifier that may carry generic arguments.

use vstd::prelude::*;

verus! {

/// One segment of an attribute's path.
#[derive(Clone, Debug, PartialEq, Eq)]
pub struct PathSegment {
    /// The identifier, as written.
    pub ident: String,
    /// Whether generic arguments follow the identifier.
    pub has_arguments: bool,
}

/// The path of an attribute.
#[derive(Clone, Debug, PartialEq, Eq)]
pub struct AttrPath {
    /// Whether the path starts with `::`.
    pub leading_colon: bool,
    /// The segments, in order.
    pub segments: Vec<PathSegment>,
}

/// What an attribute means to the rewriting.
#[derive(Clone, Copy, Debug, PartialEq, Eq, Structural)]
pub enum AttrKind {
    /// `#[test]`, the marker of the built-in harness.
    Test,
    /// `#[tokio::test]`, the marker of the async runtime's harness.
    TokioTest,
    /// `#[sqlx::test]`, the marker of the harness that hands out a fixture.
    SqlxTest,
    /// `#[ignore]` or `#[should_panic]`: moved to the wrapper as it is.
    PassThrough,
    /// Anything else: stays on the function itself.
    Other,
}

/// The harness markers found among a function's attributes, and where the
/// other attributes go. Attributes are named by their position in the list.
#[derive(Clone, Debug, PartialEq, Eq)]
pub struct SortedAttrs {
    /// The last `#[test]`, if there is one.
    pub test: Option<usize>,
    /// The last `#[tokio::test]`, if there is one.
    pub tokio: Option<usize>,
    /// The last `#[sqlx::test]`, if there is one.
    pub sqlx: Option<usize>,
    /// The attributes that move to the wrapper, in their order.
    pub pass_through: Vec<usize>,
    /// The attributes that stay on the function itself, in their order.
    pub kept: Vec<usize>,
}

impl AttrPath {
    /// The path is the single identifier `name`: no leading `::`, one
    /// segment, no generic arguments.
    pub open spec fn spec_is_ident(&self, name: Seq<char>) -> bool {
        &&& !self.leading_colon
        &&& self.segments@.len() == 1
        &&& !self.segments@[0].has_arguments
        &&& self.segments@[0].ident@ == name
    }

    /// The path has exactly the two segments `first` and `second`. A leading
    /// `::` and generic arguments make no difference.
    pub open spec fn spec_is_pair(&self, first: Seq<char>, second: Seq<char>) -> bool {
        &&& self.segments@.len() == 2
        &&& self.segments@[0].ident@ == first
        &&& self.segments@[1].ident@ == second
    }

    /// What an attribute with this path means to the rewriting.
    pub open spec fn kind(&self) -> AttrKind {
        if self.spec_is_ident("test"@) {
            AttrKind::Test
        } else if self.spec_is_pair("tokio"@, "test"@) {
            AttrKind::TokioTest
        } else if self.spec_is_pair("sqlx"@, "test"@) {
            AttrKind::SqlxTest
        } else if self.spec_is_ident("ignore"@) || self.spec_is_ident("should_panic"@) {
            AttrKind::PassThrough
        } else {
            AttrKind::Other
        }
    }

    /// Whether the path is the single identifier `name`.
    pub fn is_ident(&self, name: &str) -> (r: bool)
        ensures
            r == self.spec_is_ident(name@),
    {
        !self.leading_colon && self.segments.len() == 1 && !self.segments[0].has_arguments
            && self.segments[0].ident == name.to_owned()
    }

    /// Whether the path is made of the two segments `first` and `second`.
    pub fn is_pair(&self, first: &str, second: &str) -> (r: bool)
        ensures
            r == self.spec_is_pair(first@, second@),
    {
        self.segments.len() == 2 && self.segments[0].ident == first.to_owned()
            && self.segments[1].ident == second.to_owned()
    }

    /// Says what an attribute with this path means to the rewriting.
    pub fn classify(&self) -> (k: AttrKind)
        ensures
            k == self.kind(),
    {
        if self.is_ident("test") {
            AttrKind::Test
        } else if self.is_pair("tokio", "test") {
            AttrKind::TokioTest
        } else if self.is_pair("sqlx", "test") {
            AttrKind::SqlxTest
        } else if self.is_ident("ignore") || self.is_ident("should_panic") {
            AttrKind::PassThrough
        } else {
            AttrKind::Other
        }
    }
}

/// The positions of the attributes of kind `k`, in increasing order.
pub open spec fn positions(attrs: Seq<AttrPath>, k: AttrKind) -> Seq<usize>
    decreases attrs.len(),
{
    if attrs.len() == 0 {
        Seq::empty()
    } else if attrs.last().kind() == k {
        positions(attrs.drop_last(), k).push((attrs.len() - 1) as usize)
    } else {
        positions(attrs.drop_last(), k)
    }
}

/// The position of the last attribute of kind `k`, if there is one.
pub open spec fn last_position(attrs: Seq<AttrPath>, k: AttrKind) -> Option<usize> {
    let found = positions(attrs, k);
    if found.len() == 0 {
        None
    } else {
        Some(found.last())
    }
}

/// `positions` names exactly the attributes of the kind asked for, each
/// once and in the order of the list.
pub proof fn lemma_positions(attrs: Seq<AttrPath>, k: AttrKind)
    requires
        attrs.len() <= usize::MAX,
    ensures
        forall|n: int|
            0 <= n < positions(attrs, k).len() ==> (#[trigger] positions(attrs, k)[n])
                < attrs.len() && attrs[positions(attrs, k)[n] as int].kind() == k,
        forall|m: int, n: int|
            0 <= m < n < positions(attrs, k).len() ==> positions(attrs, k)[m] < positions(
                attrs,
                k,
            )[n],
        forall|i: int|
            0 <= i < attrs.len() && (#[trigger] attrs[i]).kind() == k ==> positions(
                attrs,
                k,
            ).contains(i as usize),
    decreases attrs.len(),
{
    if attrs.len() > 0 {
        let front = attrs.drop_last();
        let last = (attrs.len() - 1) as usize;
        lemma_positions(front, k);
        let p = positions(attrs, k);
        let q = positions(front, k);
        assert forall|i: int| 0 <= i < attrs.len() && (#[trigger] attrs[i]).kind() == k implies p.contains(
            i as usize,
        ) by {
            if i < attrs.len() - 1 {
                assert(front[i].kind() == k);
                let n = choose|n: int| 0 <= n < q.len() && q[n] == i as usize;
                assert(p[n] == i as usize);
            } else {
                assert(p[p.len() - 1] == last);
            }
        }
        assert forall|n: int| 0 <= n < p.len() implies (#[trigger] p[n]) < attrs.len() && attrs[p[n] as int].kind()
            == k by {
            if n < q.len() {
                assert(p[n] == q[n]);
                assert(front[q[n] as int] == attrs[q[n] as int]);
            }
        }
    }
}

/// Each attribute is found under its own kind and under no other: position
/// `i` is among the positions of kind `k` exactly when the attribute at `i`
/// is of kind `k`. So every `#[ignore]` and `#[should_panic]` moves to the
/// wrapper, nothing else does, and no attribute is lost or doubled.
pub proof fn law_sorted_by_kind(attrs: Seq<AttrPath>, k: AttrKind, i: int)
    requires
        attrs.len() <= usize::MAX,
        0 <= i < attrs.len(),
    ensures
        positions(attrs, k).contains(i as usize) <==> attrs[i].kind() == k,
{
    lemma_positions(attrs, k);
    let found = positions(attrs, k);
    if found.contains(i as usize) {
        let n = choose|n: int| 0 <= n < found.len() && found[n] == i as usize;
        assert(attrs[found[n] as int].kind() == k);
    }
}

/// Sorts the attributes of the marked function: finds the harness markers
/// and splits the rest into those that move to the wrapper and those that
/// stay.
pub fn sort_attrs(attrs: &Vec<AttrPath>) -> (r: SortedAttrs)
    ensures
        r.test == last_position(attrs@, AttrKind::Test),
        r.tokio == last_position(attrs@, AttrKind::TokioTest),
        r.sqlx == last_position(attrs@, AttrKind::SqlxTest),
        r.pass_through@ == positions(attrs@, AttrKind::PassThrough),
        r.kept@ == positions(attrs@, AttrKind::Other),
{
    let mut test: Option<usize> = None;
    let mut tokio: Option<usize> = None;
    let mut sqlx: Option<usize> = None;
    let mut pass_through: Vec<usize> = Vec::new();
    let mut kept: Vec<usize> = Vec::new();
    let mut i: usize = 0;
    while i < attrs.len()
        invariant
            i <= attrs@.len(),
            test == last_position(attrs@.take(i as int), AttrKind::Test),
            tokio == last_position(attrs@.take(i as int), AttrKind::TokioTest),
            sqlx == last_position(attrs@.take(i as int), AttrKind::SqlxTest),
            pass_through@ == positions(attrs@.take(i as int), AttrKind::PassThrough),
            kept@ == positions(attrs@.take(i as int), AttrKind::Other),
        decreases attrs@.len() - i,
    {
        proof {
            let next = attrs@.take(i + 1);
            assert(next.drop_last() =~= attrs@.take(i as int));
            assert(next.last() == attrs@[i as int]);
        }
        match attrs[i].classify() {
            AttrKind::Test => { test = Some(i); },
            AttrKind::TokioTest => { tokio = Some(i); },
            AttrKind::SqlxTest => { sqlx = Some(i); },
            AttrKind::PassThrough => { pass_through.push(i); },
            AttrKind::Other => { kept.push(i); },
        }
        i = i + 1;
    }
    proof {
        assert(attrs@.take(i as int) =~= attrs@);
    }
    SortedAttrs { test, tokio, sqlx, pass_through, kept }
}

} // verus!
