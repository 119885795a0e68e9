//! An integer wrapper that only even values can be converted into.

use vstd::prelude::*;

verus! {

/// An integer known to be even.
#[derive(Debug, PartialEq, Eq)]
pub struct EvenNumber(pub i32);

impl vstd::std_specs::convert::TryFromSpecImpl<i32> for EvenNumber {
    open spec fn obeys_try_from_spec() -> bool {
        true
    }

    /// Conversion succeeds exactly on the even values and yields the value
    /// itself; odd values are rejected.
    open spec fn try_from_spec(v: i32) -> Result<Self, Self::Error> {
        if v % 2 == 0 {
            Ok(EvenNumber(v))
        } else {
            Err(())
        }
    }
}

impl TryFrom<i32> for EvenNumber {
    type Error = ();

    /// Accepts exactly the even values, returning them unchanged.
    fn try_from(value: i32) -> (r: Result<Self, ()>) {
        if value % 2 == 0 {
            Ok(EvenNumber(value))
        } else {
            Err(())
        }
    }
}

} // verus!
