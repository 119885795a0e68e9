//! Closures as values: closures that capture from the surrounding scope,
//! and functions that take closures as parameters, with contracts stated
//! through `call_requires` and `call_ensures`.

use vstd::prelude::*;

verus! {

/// Builds two closures over a captured constant of 42 and applies the
/// first to 1 and the second to 2, returning the pair (43, 44).
pub fn testing() -> (r: (i32, i32))
    ensures
        r.0 == 43,
        r.1 == 44,
{
    let outer_var: i32 = 42;
    let closure_annotated = |i: i32| -> (res: i32)
        requires
            i <= 1000,
        ensures
            res == i + 42,
        { i + outer_var };
    let closure_inferred = |i: i32| -> (res: i32)
        requires
            i <= 1000,
        ensures
            res == i + 42,
        { i + outer_var };
    (closure_annotated(1), closure_inferred(2))
}

/// Runs a closure that takes no input and returns nothing.
pub fn apply<F: FnOnce()>(f: F)
    requires
        call_requires(f, ()),
{
    f();
}

/// Applies the closure to 3; the result is one the closure's own contract
/// allows for the input 3.
pub fn apply_to_3<F: Fn(i32) -> i32>(f: F) -> (r: i32)
    requires
        call_requires(f, (3,)),
    ensures
        call_ensures(f, (3,), r),
{
    f(3)
}

} // verus!
