//! Classifying an integer into a description by pattern matching: a single
//! value, a set of values, an inclusive range, and a catch-all.

use vstd::prelude::*;
use vstd::string::StringExecFns;
use crate::formatting::spec_udec;
use crate::formatting::dec_u64;

verus! {

/// The description of a number: "One" for 1, a prime notice for a few
/// small primes, "A <n>teen" for the teens, and a catch-all otherwise.
pub open spec fn spec_match_numbers(n: int) -> Seq<char> {
    if n == 1 {
        "One"@
    } else if n == 2 || n == 3 || n == 5 || n == 11 {
        "This is a prime"@
    } else if 13 <= n <= 19 {
        seq!['A', ' '] + spec_udec(n as nat) + "teen"@
    } else {
        "Ain't special"@
    }
}

/// Returns the description of `number`.
pub fn match_numbers(number: i32) -> (r: String)
    ensures
        r@ == spec_match_numbers(number as int),
{
    match number {
        1 => "One".to_owned(),
        2 | 3 | 5 | 11 => "This is a prime".to_owned(),
        13..=19 => {
            let mut s: String = "A ".to_owned();
            let digits = dec_u64(number as u64);
            s.append(digits.as_str());
            s.append("teen");
            proof {
                reveal_strlit("A ");
                assert(s@ =~= spec_match_numbers(number as int));
            }
            s
        },
        _ => "Ain't special".to_owned(),
    }
}

} // verus!
