//! The same pair container and capability as `explicit_generics`, but with
//! the probe types declared as associated types of the trait: each
//! implementer fixes them once, and generic call sites such as `difference`
//! need not restate them.

use vstd::prelude::*;

verus! {

/// Holds exactly two values, conceptually the "first" and "last" members of
/// an ordered pair. Immutable after construction.
pub struct Container(pub i32, pub i32);

/// Capability trait: a membership test against two externally supplied probe
/// values, and retrieval of the stored first and last values.
///
/// The probe types are associated types, bound once at the implementation
/// site.
pub trait Contains {
    type A;

    type B;

    /// What the membership test decides for given probe values.
    spec fn spec_contains(&self, a: Self::A, b: Self::B) -> bool;

    /// The stored first value, as a mathematical integer.
    spec fn spec_first(&self) -> int;

    /// The stored last value, as a mathematical integer.
    spec fn spec_last(&self) -> int;

    fn contains(&self, a: &Self::A, b: &Self::B) -> (r: bool)
        ensures
            r == self.spec_contains(*a, *b),
    ;

    fn first(&self) -> (r: i32)
        ensures
            r as int == self.spec_first(),
    ;

    fn last(&self) -> (r: i32)
        ensures
            r as int == self.spec_last(),
    ;
}

impl Contains for Container {
    type A = i32;

    type B = i32;

    open spec fn spec_contains(&self, a: i32, b: i32) -> bool {
        self.0 == a && self.1 == b
    }

    open spec fn spec_first(&self) -> int {
        self.0 as int
    }

    open spec fn spec_last(&self) -> int {
        self.1 as int
    }

    /// True exactly when the stored pair equals the probe pair.
    fn contains(&self, a: &i32, b: &i32) -> bool {
        self.0 == *a && self.1 == *b
    }

    fn first(&self) -> i32 {
        self.0
    }

    fn last(&self) -> i32 {
        self.1
    }
}

/// The derived computation: `last - first`, written only against the
/// capability. Unlike the encoding with explicit trait parameters, the
/// probe types need not be mentioned here at all.
pub fn difference<C: Contains>(container: &C) -> (r: i32)
    requires
        i32::MIN <= container.spec_last() - container.spec_first() <= i32::MAX,
    ensures
        r == container.spec_last() - container.spec_first(),
{
    container.last() - container.first()
}

/// Constructing a container from a pair stores exactly that pair: `first`
/// and `last` return the two constructor arguments.
pub proof fn lemma_construction(a: i32, b: i32)
    ensures
        Container(a, b).spec_first() == a as int,
        Container(a, b).spec_last() == b as int,
{
}

/// The membership test succeeds on the stored pair and fails on any probe
/// pair that differs from it, in particular on a first probe one above the
/// stored first value.
pub proof fn lemma_membership(a: i32, b: i32)
    ensures
        Container(a, b).spec_contains(a, b),
        forall|x: i32, y: i32|
            x != a || y != b ==> !Container(a, b).spec_contains(x, y),
        a < i32::MAX ==> !Container(a, b).spec_contains((a + 1) as i32, b),
{
}

/// The derived computation on a container built from `(a, b)` is exactly
/// `b - a`.
pub proof fn lemma_difference(a: i32, b: i32)
    ensures
        Container(a, b).spec_last() - Container(a, b).spec_first() == b - a,
{
}

} // verus!
