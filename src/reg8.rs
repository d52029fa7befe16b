use vstd::prelude::*;

verus! {

/// An 8-bit register.
#[derive(Clone, Copy, Debug, Default, PartialEq, Eq, Structural, PartialOrd, Ord, Hash)]
pub struct Reg8(u8);

impl View for Reg8 {
    type V = u8;

    closed spec fn view(&self) -> u8 {
        self.0
    }
}

impl Reg8 {
    pub fn new(u: u8) -> (r: Self)
        ensures
            r@ == u,
    {
        Self(u)
    }

    pub fn get(self) -> (r: u8)
        ensures
            r == self@,
    {
        self.0
    }

    pub fn set(&mut self, u: u8)
        ensures
            final(self)@ == u,
    {
        self.0 = u;
    }
}

} // verus!
