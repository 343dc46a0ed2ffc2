//! The status byte: packing the seven condition flags into one byte and
//! reading them back.
//!
//! Bits, high to low: N(7), V(6), an unused bit that always reads 1 (5),
//! B(4), D(3), I(2), Z(1), C(0). `PHP`, `BRK` and the interrupts push the
//! packed byte; `PLP` and `RTI` unpack one. The break bit in the pushed byte
//! depends on the pusher (set by software pushes, clear on interrupts), so
//! the packing function takes it as its own argument.

use vstd::prelude::*;

verus! {

/// 1 for a set flag, 0 for a clear one.
pub open spec fn bit(f: bool) -> int {
    if f {
        1
    } else {
        0
    }
}

/// The canonical status byte for the given flags; bit 5 always reads 1.
pub open spec fn pack_flags(
    n: bool,
    v: bool,
    b: bool,
    d: bool,
    i: bool,
    z: bool,
    c: bool,
) -> u8 {
    (128 * bit(n) + 64 * bit(v) + 32 + 16 * bit(b) + 8 * bit(d) + 4 * bit(i) + 2 * bit(z) + bit(
        c,
    )) as u8
}

/// The N flag held in a status byte.
pub open spec fn byte_n(s: u8) -> bool {
    s / 128 % 2 == 1
}

/// The V flag held in a status byte.
pub open spec fn byte_v(s: u8) -> bool {
    s / 64 % 2 == 1
}

/// The B flag held in a status byte.
pub open spec fn byte_b(s: u8) -> bool {
    s / 16 % 2 == 1
}

/// The D flag held in a status byte.
pub open spec fn byte_d(s: u8) -> bool {
    s / 8 % 2 == 1
}

/// The I flag held in a status byte.
pub open spec fn byte_i(s: u8) -> bool {
    s / 4 % 2 == 1
}

/// The Z flag held in a status byte.
pub open spec fn byte_z(s: u8) -> bool {
    s / 2 % 2 == 1
}

/// The C flag held in a status byte.
pub open spec fn byte_c(s: u8) -> bool {
    s % 2 == 1
}

/// Packing the flags and reading them back yields the flags: the status byte
/// is a faithful carrier for `PHP`/`PLP`, `BRK`/`RTI` and interrupt pushes.
pub proof fn lemma_pack_unpack(n: bool, v: bool, b: bool, d: bool, i: bool, z: bool, c: bool)
    ensures
        byte_n(pack_flags(n, v, b, d, i, z, c)) == n,
        byte_v(pack_flags(n, v, b, d, i, z, c)) == v,
        byte_b(pack_flags(n, v, b, d, i, z, c)) == b,
        byte_d(pack_flags(n, v, b, d, i, z, c)) == d,
        byte_i(pack_flags(n, v, b, d, i, z, c)) == i,
        byte_z(pack_flags(n, v, b, d, i, z, c)) == z,
        byte_c(pack_flags(n, v, b, d, i, z, c)) == c,
{
}

/// Bit 5 of a packed status byte always reads 1.
pub proof fn lemma_pack_bit5(n: bool, v: bool, b: bool, d: bool, i: bool, z: bool, c: bool)
    ensures
        pack_flags(n, v, b, d, i, z, c) / 32 % 2 == 1,
{
}

} // verus!
