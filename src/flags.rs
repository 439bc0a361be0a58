//! The status register: bit masks and the spec-level flag operations.
use vstd::prelude::*;

verus! {

pub const CARRY: u8 = 0b0000_0001;

pub const ZERO: u8 = 0b0000_0010;

pub const INTERRUPT_DISABLE: u8 = 0b0000_0100;

pub const DECIMAL_MODE: u8 = 0b0000_1000;

pub const BREAK: u8 = 0b0001_0000;

/// Bit 5 is not connected on the chip and always reads as one.
pub const UNUSED: u8 = 0b0010_0000;

pub const OVERFLOW: u8 = 0b0100_0000;

pub const NEGATIVE: u8 = 0b1000_0000;

/// Whether the bits of `mask` are set in `status`.
pub open spec fn flag(status: u8, mask: u8) -> bool {
    status & mask != 0
}

/// `status` with the bits of `mask` set when `on`, cleared otherwise.
pub open spec fn with_flag(status: u8, mask: u8, on: bool) -> u8 {
    if on {
        status | mask
    } else {
        status & !mask
    }
}

/// The status after a data-affecting result `r`: Zero iff `r == 0`,
/// Negative iff bit 7 of `r` is set, every other bit kept.
pub open spec fn with_zero_negative(status: u8, r: u8) -> u8 {
    with_flag(with_flag(status, ZERO, r == 0), NEGATIVE, r & 0x80 != 0)
}

/// Sets or clears the bits of `mask` in `status`.
pub fn set_flag(status: u8, mask: u8, on: bool) -> (r: u8)
    ensures
        r == with_flag(status, mask, on),
{
    if on {
        status | mask
    } else {
        status & !mask
    }
}

/// After `with_zero_negative(status, r)` the Zero flag is set iff `r` is
/// zero, the Negative flag equals bit 7 of `r`, and no other bit changed.
pub proof fn lemma_zero_negative(status: u8, r: u8)
    ensures
        flag(with_zero_negative(status, r), ZERO) <==> r == 0,
        flag(with_zero_negative(status, r), NEGATIVE) <==> (r >> 7) & 1 == 1,
        with_zero_negative(status, r) & 0x7D == status & 0x7D,
{
    assert(flag(with_zero_negative(status, r), ZERO) <==> r == 0) by (bit_vector);
    assert(flag(with_zero_negative(status, r), NEGATIVE) <==> (r >> 7) & 1 == 1) by (bit_vector);
    assert(with_zero_negative(status, r) & 0x7D == status & 0x7D) by (bit_vector);
}

} // verus!
