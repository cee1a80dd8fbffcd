//! Sentinel policy: a field whose bits are all ones carries no measurement.
//!
//! For an unsigned field of width `w` bits the raw value `2^w - 1` is
//! reserved to mean "signal unavailable / error". The policy is advisory:
//! decoding returns sentinel values as they are, and consumers ask here
//! before treating a field as a physical quantity.

use vstd::prelude::*;

verus! {

/// The reserved "unavailable" raw value for a field of `width` bits:
/// all ones, that is `2^width - 1`.
pub open spec fn sentinel_value(width: nat) -> int {
    vstd::arithmetic::power2::pow2(width) - 1
}

/// True exactly when `value` is the sentinel for a field of `width` bits.
pub open spec fn spec_is_unavailable(value: int, width: nat) -> bool {
    value == sentinel_value(width)
}

/// Decides whether a decoded field value is the "unavailable / error"
/// sentinel for its bit width.
pub fn is_unavailable(value: u64, width: u32) -> (r: bool)
    requires
        1 <= width < 64,
    ensures
        r == spec_is_unavailable(value as int, width as nat),
{
    proof {
        vstd::bits::lemma_u64_pow2_no_overflow(width as nat);
        vstd::bits::lemma_u64_shl_is_mul(1u64, width as u64);
    }
    let mask: u64 = (1u64 << width) - 1;
    value == mask
}

/// The sentinel values of the three field widths that the record layouts
/// use: `0xFF` for 8 bits, `0xFFFF` for 16 bits, `0xFFFF_FFFF` for 32 bits.
pub proof fn lemma_sentinel_values_of_used_widths()
    ensures
        sentinel_value(8) == 0xFF,
        sentinel_value(16) == 0xFFFF,
        sentinel_value(32) == 0xFFFF_FFFF,
{
    vstd::arithmetic::power2::lemma2_to64();
}

/// The all-ones value of each used width is flagged unavailable, and no
/// other value of that width is.
pub proof fn lemma_sentinel_flags_all_ones(value: int)
    ensures
        spec_is_unavailable(0xFF, 8),
        spec_is_unavailable(0xFFFF, 16),
        spec_is_unavailable(0xFFFF_FFFF, 32),
        spec_is_unavailable(value, 8) <==> value == 0xFF,
        spec_is_unavailable(value, 16) <==> value == 0xFFFF,
        spec_is_unavailable(value, 32) <==> value == 0xFFFF_FFFF,
{
    lemma_sentinel_values_of_used_widths();
}

} // verus!
