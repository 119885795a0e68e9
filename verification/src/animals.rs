//! An animal capability trait and a sheep that implements it, with a small
//! piece of mutable state: shearing a sheep changes the noise it makes.

use vstd::prelude::*;

verus! {

/// A sheep with a name and a shearing state.
pub struct Sheep {
    pub naked: bool,
    pub name: &'static str,
}

/// Capability of animals: construction from a name, and retrieval of the
/// name and of the noise the animal currently makes.
pub trait Animal: Sized {
    /// The animal's name.
    spec fn spec_name(&self) -> Seq<char>;

    /// The noise the animal currently makes.
    spec fn spec_noise(&self) -> Seq<char>;

    fn new(name: &'static str) -> (a: Self)
        ensures
            a.spec_name() == name@,
    ;

    fn name(&self) -> (r: &'static str)
        ensures
            r@ == self.spec_name(),
    ;

    fn noise(&self) -> (r: &'static str)
        ensures
            r@ == self.spec_noise(),
    ;
}

impl Sheep {
    /// Whether the sheep has been sheared.
    pub fn is_naked(&self) -> (r: bool)
        ensures
            r == self.naked,
    {
        self.naked
    }

    /// Shears the sheep: afterwards it is naked, whatever it was before,
    /// and keeps its name.
    pub fn _shear(&mut self)
        ensures
            final(self).naked,
            final(self).name == old(self).name,
    {
        if !self.is_naked() {
            self.naked = true;
        }
    }
}

impl Animal for Sheep {
    open spec fn spec_name(&self) -> Seq<char> {
        self.name@
    }

    open spec fn spec_noise(&self) -> Seq<char> {
        if self.naked {
            "baaaaaah?"@
        } else {
            "baaaaaah!"@
        }
    }

    /// A new sheep has the given name and has not been sheared.
    fn new(name: &'static str) -> (a: Self)
        ensures
            !a.naked,
    {
        Sheep { name: name, naked: false }
    }

    fn name(&self) -> &'static str {
        self.name
    }

    fn noise(&self) -> &'static str {
        if self.is_naked() {
            "baaaaaah?"
        } else {
            "baaaaaah!"
        }
    }
}

} // verus!
