//! Eight-bit arithmetic with its flag.

use super::machine::flag;
use vstd::prelude::*;

verus! {

/// Shifting a byte by one place halves or doubles it; its lowest and
/// highest bits are its remainder modulo two and its quotient by 128.
proof fn lemma_shifts(v: u8)
    by (bit_vector)
    ensures
        v & 1 == v % 2,
        v >> 1 == v / 2,
        (v >> 7) & 1 == v / 128,
        v << 1 == ((v * 2) % 256) as u8,
{
}

/// The sum modulo 256, and whether it carried.
pub(crate) fn add_with_carry(a: u8, b: u8) -> (out: (u8, u8))
    ensures
        out.0 == ((a + b) % 256) as u8,
        out.1 == flag(a + b >= 256),
{
    let sum = a.wrapping_add(b);
    (sum, if sum < a {
        1
    } else {
        0
    })
}

/// The difference `a - b` modulo 256, and whether it did not borrow.
pub(crate) fn subtract_with_borrow(a: u8, b: u8) -> (out: (u8, u8))
    ensures
        out.0 == ((a - b) % 256) as u8,
        out.1 == flag(a >= b),
{
    (a.wrapping_sub(b), if a >= b {
        1
    } else {
        0
    })
}

/// The byte shifted one place right, and the bit that left it.
pub(crate) fn shift_right(v: u8) -> (out: (u8, u8))
    ensures
        out.0 == v / 2,
        out.1 == v % 2,
{
    proof {
        lemma_shifts(v);
    }
    (v >> 1, v & 0x1)
}

/// The byte shifted one place left, and the bit that left it.
pub(crate) fn shift_left(v: u8) -> (out: (u8, u8))
    ensures
        out.0 == ((v * 2) % 256) as u8,
        out.1 == v / 128,
{
    proof {
        lemma_shifts(v);
    }
    (v << 1, (v >> 7) & 0x1)
}

} // verus!
