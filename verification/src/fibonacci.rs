//! A Fibonacci stream: a pair of consecutive values advanced one step at a
//! time, in the shape of an iterator's `next` method.

use vstd::prelude::*;

verus! {

/// A position in the Fibonacci sequence: the current value and the one
/// after it.
pub struct Fibonacci {
    pub curr: u32,
    pub next: u32,
}

impl Fibonacci {
    /// Advances the stream one step: returns the current value, and shifts
    /// the pair so that the new second value is the sum of the old two.
    pub fn next(&mut self) -> (r: Option<u32>)
        requires
            old(self).curr + old(self).next <= u32::MAX,
        ensures
            r == Some(old(self).curr),
            final(self).curr == old(self).next,
            final(self).next == old(self).curr + old(self).next,
    {
        let current = self.curr;
        self.curr = self.next;
        self.next = current + self.next;
        Some(current)
    }
}

/// The Fibonacci stream positioned at its start: 0, then 1.
pub fn fibonacci() -> (r: Fibonacci)
    ensures
        r.curr == 0,
        r.next == 1,
{
    Fibonacci { curr: 0, next: 1 }
}

} // verus!
