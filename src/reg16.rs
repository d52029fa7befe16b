use vstd::prelude::*;

verus! {

/// A 16-bit register.
#[derive(Clone, Copy, Debug, Default, PartialEq, Eq, Structural, PartialOrd, Ord, Hash)]
pub struct Reg16(u16);

impl View for Reg16 {
    type V = u16;

    closed spec fn view(&self) -> u16 {
        self.0
    }
}

impl Reg16 {
    pub fn new(u: u16) -> (r: Self)
        ensures
            r@ == u,
    {
        Self(u)
    }

    pub fn get(self) -> (r: u16)
        ensures
            r == self@,
    {
        self.0
    }

    pub fn set(&mut self, u: u16)
        ensures
            final(self)@ == u,
    {
        self.0 = u;
    }

    /// Adds one, wrapping from `0xFFFF` to `0`.
    pub fn inc(&mut self)
        ensures
            final(self)@ == (old(self)@ + 1) % 0x1_0000,
    {
        self.0 = self.0.wrapping_add(1);
    }
}

} // verus!
