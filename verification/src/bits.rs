//! Bit-level helpers for the wire protocol.
//!
//! The panel's controller reads each byte's bits in the opposite order to
//! the one the driver stores them in, so every transmitted byte (line
//! number and payload alike) is bit-reversed before transmission. `rev8`
//! is the specification of that reversal; the executable counterpart is
//! [`crate::display::MemoryDisplay::swap`].

use vstd::prelude::*;

verus! {

/// True when bit `i` (0 = least significant) of `b` is set.
pub open spec fn bit_set(b: u8, i: u8) -> bool {
    (b >> i) & 1 == 1
}

/// The bit-reversal of a byte: bit 0 of `b` becomes bit 7 of the result,
/// bit 1 becomes bit 6, and so on.
pub open spec fn rev8(b: u8) -> u8 {
    ((b & 0x01) << 7) | ((b & 0x02) << 5) | ((b & 0x04) << 3) | ((b & 0x08) << 1)
        | ((b & 0x10) >> 1) | ((b & 0x20) >> 3) | ((b & 0x40) >> 5) | ((b & 0x80) >> 7)
}

/// `rev8` moves every bit to the mirrored position: bit `i` of the result
/// carries bit `7 - i` of the argument.
pub proof fn lemma_rev8_swaps_bits(b: u8, i: u8)
    requires
        i < 8,
    ensures
        bit_set(rev8(b), i) == bit_set(b, (7 - i) as u8),
{
    assert(bit_set(rev8(b), i) == bit_set(b, (7 - i) as u8)) by (bit_vector)
        requires
            i < 8,
    ;
}

/// Bit-reversal round-trips: reversing a byte twice yields the original.
pub proof fn lemma_rev8_involutive(b: u8)
    ensures
        rev8(rev8(b)) == b,
{
    assert(rev8(rev8(b)) == b) by (bit_vector);
}

} // verus!
