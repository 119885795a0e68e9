//! Small generic-trait examples: a blanket trait implementation that
//! consumes both of its arguments, and empty marker traits used purely as
//! bounds.

use vstd::prelude::*;

verus! {

struct Empty;

struct Null;

/// A trait generic over `T`: a method on the implementing type that takes
/// one additional value of type `T` and consumes both.
trait DoubleDrop<T> {
    fn double_drop(self, t: T);
}

/// Every type can drop itself together with any other value.
impl<T, U> DoubleDrop<T> for U {
    fn double_drop(self, t: T) {
    }
}

/// Consumes one value of each of the two local types.
pub fn usage() {
    let empty = Empty;
    let null = Null;
    empty.double_drop(null);
}

/// Marker type implementing only `Red`.
pub struct Cardinal;

/// Marker type implementing only `Blue`.
pub struct BlueJay;

/// Empty marker trait: carries no operations, usable purely as a bound.
pub trait Red {

}

/// Empty marker trait: carries no operations, usable purely as a bound.
pub trait Blue {

}

impl Red for Cardinal {

}

impl Blue for BlueJay {

}

/// Returns the color name of any `Red` type.
pub fn red<T: Red>(t: &T) -> (r: &'static str)
    ensures
        r@ == "red"@,
{
    "red"
}

/// Returns the color name of any `Blue` type.
pub fn blue<T: Blue>(t: &T) -> (r: &'static str)
    ensures
        r@ == "blue"@,
{
    "blue"
}

} // verus!
