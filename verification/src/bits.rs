//! Bit-level helpers shared by the register-field writers and the
//! peripheral clock gates.

use vstd::prelude::*;

verus! {

/// `x` with bit `n` replaced by `value` and every other bit unchanged.
pub open spec fn with_bit(x: u32, n: u32, value: bool) -> u32
    recommends
        n < 32,
{
    if value {
        x | (1u32 << n)
    } else {
        x & !(1u32 << n)
    }
}

/// `x` with the bits selected by `mask` replaced by the matching bits of
/// `value`.
pub open spec fn with_field(x: u32, mask: u32, value: u32) -> u32 {
    (x & !mask) | (value & mask)
}

/// Setting the bits of `m` and then clearing them restores a word in which
/// they all started out clear.
pub proof fn lemma_set_then_clear_mask(x: u32, m: u32)
    by (bit_vector)
    requires
        x & m == 0,
    ensures
        (x | m) & !m == x,
{
}

} // verus!
