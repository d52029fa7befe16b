use vstd::prelude::*;

verus! {

/// Relies on `bitfrob::u8_get_value`: the inclusive bit range `low..=high`
/// of `u`, shifted down to bit 0. It panics unless `low <= high < 8`.
#[verifier::external_body]
pub(crate) fn get_value(low: u32, high: u32, u: u8) -> (r: u8)
    requires
        low <= high < 8,
    ensures
        r == (u >> low) & (0xFFu8 >> (7 - (high - low)) as u32),
{
    bitfrob::u8_get_value(low, high, u)
}

/// Relies on `bitfrob::u8_get_bit`: whether bit `b` of `u` is set. It panics
/// unless `b < 8`.
#[verifier::external_body]
pub(crate) fn get_bit(b: u32, u: u8) -> (r: bool)
    requires
        b < 8,
    ensures
        r == (u & (1u8 << b) != 0),
{
    bitfrob::u8_get_bit(b, u)
}

/// Relies on `bitfrob::u8_with_bit`: `u` with bit `b` replaced by `is_set`.
/// It panics unless `b < 8`.
#[verifier::external_body]
pub(crate) fn with_bit(b: u32, u: u8, is_set: bool) -> (r: u8)
    requires
        b < 8,
    ensures
        r == (u & !(1u8 << b)) | ((if is_set { 1u8 } else { 0u8 }) << b),
{
    bitfrob::u8_with_bit(b, u, is_set)
}

} // verus!
