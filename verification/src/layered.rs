//! Options stacked in layers: popping from a vector of optional integers
//! yields an `Option<Option<i8>>`, and a descending cursor checks each
//! popped value until the stack runs out.

use vstd::prelude::*;

verus! {

/// Builds the stack `[None, Some(1), ..., Some(10)]`, then pops it back
/// down while a cursor counts from 10 towards 0; every popped value
/// matches the cursor, and the cursor ends exactly at zero.
pub fn layered_option() {
    let range: i8 = 10;
    let mut optional_integers: Vec<Option<i8>> = Vec::new();
    optional_integers.push(None);
    let mut i: i8 = 1;
    while i <= range
        invariant
            range == 10,
            1 <= i <= 11,
            optional_integers@.len() == i as int,
            optional_integers@[0] is None,
            forall|k: int| 1 <= k < i as int ==> optional_integers@[k] == Some(k as i8),
        decreases 11 - i,
    {
        optional_integers.push(Some(i));
        i = i + 1;
    }
    let mut cursor: i8 = range;
    loop
        invariant_except_break
            optional_integers@.len() == cursor as int + 1,
            optional_integers@[0] is None,
            forall|k: int| 1 <= k <= cursor as int ==> optional_integers@[k] == Some(k as i8),
        invariant
            0 <= cursor <= 10,
        ensures
            cursor == 0,
        decreases cursor,
    {
        let popped = optional_integers.pop();
        match popped {
            Some(integer) => {
                if cursor == 0 {
                    break ;
                }
                assert(integer == Some(cursor));
                cursor = cursor - 1;
            },
            None => {
                assert(false);
                break ;
            },
        }
    }
    assert(cursor == 0);
}

} // verus!
