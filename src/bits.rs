//! Bit-range extraction on the protocol byte.
use bit_field::BitField;
use vstd::arithmetic::power2::pow2;
use vstd::prelude::*;

verus! {

/// Relies on `bit_field::BitField::get_bits` for `u8`: the bits `lo..hi` of `v`,
/// moved down so that bit `lo` lands on bit 0. It panics unless `lo < 8`,
/// `hi <= 8` and `lo <= hi`.
#[verifier::external_body]
pub(crate) fn bits_of(v: u8, lo: usize, hi: usize) -> (r: u8)
    requires
        lo < hi,
        hi <= 8,
    ensures
        r as int == (v as int / pow2(lo as nat) as int) % (pow2((hi - lo) as nat) as int),
{
    v.get_bits(lo..hi)
}

/// Relies on `bit_field::BitField::get_bit` for `u8`: whether bit `i` of `v` is
/// set. It panics unless `i < 8`.
#[verifier::external_body]
pub(crate) fn bit_of(v: u8, i: usize) -> (r: bool)
    requires
        i < 8,
    ensures
        r == ((v as int / pow2(i as nat) as int) % 2 == 1),
{
    v.get_bit(i)
}

} // verus!
