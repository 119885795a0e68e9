//! The two encodings of the pair-container capability — explicit trait
//! parameters and associated types — are observationally equivalent: on the
//! same logical container value every operation of the capability, and
//! therefore the derived difference, agrees.

use vstd::prelude::*;
use crate::associated_types;
use crate::explicit_generics;

verus! {

/// Encoding independence: containers built from the same pair agree, under
/// both encodings, on `first`, `last`, the membership test for every probe
/// pair, and hence on the value `difference` is specified to return.
pub proof fn lemma_encodings_agree(a: i32, b: i32)
    ensures
        explicit_generics::Contains::spec_first(&explicit_generics::Container(a, b))
            == associated_types::Contains::spec_first(&associated_types::Container(a, b)),
        explicit_generics::Contains::spec_last(&explicit_generics::Container(a, b))
            == associated_types::Contains::spec_last(&associated_types::Container(a, b)),
        forall|x: i32, y: i32|
            explicit_generics::Contains::spec_contains(&explicit_generics::Container(a, b), x, y)
                == associated_types::Contains::spec_contains(
                &associated_types::Container(a, b),
                x,
                y,
            ),
{
}

} // verus!
