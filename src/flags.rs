//! The status register: which bit holds which flag, and how an
//! instruction sets or clears one.
use vstd::prelude::*;

verus! {

/// Bit 0: set by a shift, cleared by `CLC`.
pub const CARRY: u8 = 0x01;

/// Bit 1: the last result was zero.
pub const ZERO: u8 = 0x02;

/// Bit 6: bit 6 of the last `BIT` operand.
pub const OVERFLOW: u8 = 0x40;

/// Bit 7: bit 7 of the last result.
pub const NEGATIVE: u8 = 0x80;

/// Whether every bit of `mask` is set in `flags`.
pub open spec fn is_set(flags: u8, mask: u8) -> bool {
    flags & mask == mask
}

/// `flags` with the bits of `mask` set when `on` holds and cleared otherwise,
/// every other bit kept.
pub open spec fn with_flag(flags: u8, mask: u8, on: bool) -> u8 {
    if on {
        flags | mask
    } else {
        flags & !mask
    }
}

/// `flags` with Zero and Negative recomputed from `value`.
pub open spec fn with_zero_negative(flags: u8, value: u8) -> u8 {
    with_flag(with_flag(flags, ZERO, value == 0), NEGATIVE, is_set(value, NEGATIVE))
}

/// Sets the bits of `mask` in `flags` when `on` holds, clears them otherwise.
pub fn set_flag(flags: u8, mask: u8, on: bool) -> (r: u8)
    ensures
        r == with_flag(flags, mask, on),
{
    if on {
        flags | mask
    } else {
        flags & !mask
    }
}

/// Recomputing Zero and Negative from `value` sets Zero exactly when
/// `value` is zero, Negative exactly when bit 7 of `value` is set, and
/// leaves every other bit of `flags` as it was (bits 2 to 5 among them).
pub proof fn lemma_zero_negative(flags: u8, value: u8)
    by (bit_vector)
    ensures
        is_set(with_zero_negative(flags, value), ZERO) == (value == 0),
        is_set(with_zero_negative(flags, value), NEGATIVE) == is_set(value, NEGATIVE),
        with_zero_negative(flags, value) & 0x7D == flags & 0x7D,
        with_zero_negative(flags, value) & 0x3C == flags & 0x3C,
        is_set(with_zero_negative(flags, value), CARRY) == is_set(flags, CARRY),
        is_set(with_zero_negative(flags, value), OVERFLOW) == is_set(flags, OVERFLOW),
{
}

/// Recomputing Zero and Negative twice from the same value gives what
/// recomputing them once gives.
pub proof fn lemma_zero_negative_twice(flags: u8, value: u8)
    by (bit_vector)
    ensures
        with_zero_negative(with_zero_negative(flags, value), value) == with_zero_negative(
            flags,
            value,
        ),
{
}

/// Setting or clearing one of the four flags leaves bits 2 to 5 as they were.
pub proof fn lemma_reserved_bits(flags: u8, mask: u8, on: bool)
    by (bit_vector)
    requires
        mask == CARRY || mask == ZERO || mask == OVERFLOW || mask == NEGATIVE,
    ensures
        with_flag(flags, mask, on) & 0x3C == flags & 0x3C,
{
}

} // verus!
