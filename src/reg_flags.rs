use vstd::prelude::*;

use crate::bits::{get_bit, with_bit};

verus! {

/// The flags register: zero (bit 7), subtract (bit 6), half-carry (bit 5) and
/// carry (bit 4). Bits 3–0 are always clear.
#[derive(Clone, Copy, Debug, Default, PartialEq, Eq, Structural, PartialOrd, Ord, Hash)]
pub struct RegFlags(u8);

impl View for RegFlags {
    type V = u8;

    closed spec fn view(&self) -> u8 {
        self.0
    }
}

/// Whether bit `b` of `u` is set.
pub open spec fn bit_of(u: u8, b: u32) -> bool {
    u & (1u8 << b) != 0
}

/// `u` with bit `b` set to `v`.
pub open spec fn with_bit_of(u: u8, b: u32, v: bool) -> u8 {
    (u & !(1u8 << b)) | ((if v { 1u8 } else { 0u8 }) << b)
}

impl RegFlags {
    #[verifier::type_invariant]
    spec fn low_nibble_clear(self) -> bool {
        self.0 & 0x0F == 0
    }

    /// The flags held in the upper four bits of `bits`; the lower four are
    /// dropped.
    pub fn from_bits(bits: u8) -> (r: Self)
        ensures
            r@ == bits & 0xF0,
    {
        let v = bits & 0xF0;
        assert(v & 0x0F == 0) by (bit_vector)
            requires
                v == bits & 0xF0,
        ;
        RegFlags(v)
    }

    /// The register as a byte; its bits 3–0 are clear.
    pub fn bits(self) -> (r: u8)
        ensures
            r == self@,
            r & 0x0F == 0,
    {
        proof {
            use_type_invariant(&self);
        }
        self.0
    }

    /// Replaces bit `b` (one of 4..=7), keeping bits 3–0 clear.
    fn with_flag(self, b: u32, val: bool) -> (r: Self)
        requires
            4 <= b < 8,
        ensures
            r@ == with_bit_of(self@, b, val),
    {
        proof {
            use_type_invariant(&self);
        }
        let u = with_bit(b, self.0, val);
        let old_bits = self.0;
        assert(u & 0x0F == 0) by (bit_vector)
            requires
                old_bits & 0x0F == 0,
                4 <= b < 8,
                u == (old_bits & !(1u8 << b)) | ((if val { 1u8 } else { 0u8 }) << b),
        ;
        RegFlags(u)
    }

    /// The zero flag.
    pub fn z(self) -> (r: bool)
        ensures
            r == bit_of(self@, 7),
    {
        get_bit(7, self.0)
    }

    pub fn set_z(&mut self, val: bool)
        ensures
            final(self)@ == with_bit_of(old(self)@, 7, val),
    {
        *self = self.with_flag(7, val);
    }

    /// The subtract flag.
    pub fn n(self) -> (r: bool)
        ensures
            r == bit_of(self@, 6),
    {
        get_bit(6, self.0)
    }

    pub fn set_n(&mut self, val: bool)
        ensures
            final(self)@ == with_bit_of(old(self)@, 6, val),
    {
        *self = self.with_flag(6, val);
    }

    /// The half-carry flag.
    pub fn h(self) -> (r: bool)
        ensures
            r == bit_of(self@, 5),
    {
        get_bit(5, self.0)
    }

    pub fn set_h(&mut self, val: bool)
        ensures
            final(self)@ == with_bit_of(old(self)@, 5, val),
    {
        *self = self.with_flag(5, val);
    }

    /// The carry flag.
    pub fn c(self) -> (r: bool)
        ensures
            r == bit_of(self@, 4),
    {
        get_bit(4, self.0)
    }

    pub fn set_c(&mut self, val: bool)
        ensures
            final(self)@ == with_bit_of(old(self)@, 4, val),
    {
        *self = self.with_flag(4, val);
    }
    /// The flags as the letters `Z`, `N`, `H` and `C`, each shown as `_`
    /// where its flag is clear.
    pub fn letters(self) -> (r: [char; 4])
        ensures
            r@ == seq![
                if bit_of(self@, 7) { 'Z' } else { '_' },
                if bit_of(self@, 6) { 'N' } else { '_' },
                if bit_of(self@, 5) { 'H' } else { '_' },
                if bit_of(self@, 4) { 'C' } else { '_' },
            ],
    {
        let z = if self.z() { 'Z' } else { '_' };
        let n = if self.n() { 'N' } else { '_' };
        let h = if self.h() { 'H' } else { '_' };
        let c = if self.c() { 'C' } else { '_' };
        let r = [z, n, h, c];
        assert(r@ =~= seq![z, n, h, c]);
        r
    }
}

} // verus!
