//! Addressing-mode resolution: from the bytes following an opcode to the
//! effective operand.
//!
//! Given a machine whose `pc` still points at the opcode byte, each mode
//! yields an [`Operand`] — a 16-bit address, the accumulator, or nothing —
//! together with a flag saying whether an indexed mode crossed a page
//! boundary (which costs one extra cycle on the table entries marked for
//! it). The documented hardware quirks live here: zero-page indexing wraps
//! within page 0, the indirect mode reproduces the `JMP` page-boundary bug,
//! and indirect pointer fetches in page 0 wrap within that page.

use vstd::prelude::*;
use crate::machine::{read8_at, read16_at, word16, wrap16, wrap8, Machine};
use crate::table::AddrMode;

verus! {

/// The effective operand of one instruction.
///
/// An immediate operand is reported as the address of the literal byte
/// itself, which sits right after the opcode. Implied and relative modes
/// carry no operand: branches read their displacement byte directly.
#[derive(Clone, Copy, PartialEq, Eq, Structural, Debug)]
pub enum Operand {
    /// The operand lives in memory at this address.
    Addr(u16),
    /// The operand is the accumulator register.
    Acc,
    /// There is no operand.
    NoOperand,
}

/// The little-endian word at zero-page address `zp`, the high byte wrapping
/// within page 0: the pointer fetch never leaves the zero page.
pub open spec fn zp_read16(m: Seq<u8>, zp: u8) -> u16 {
    word16(m[zp as int], m[wrap8(zp + 1) as int])
}

/// The word at `ptr` as the `JMP (addr)` hardware bug reads it: when the low
/// byte of `ptr` is `0xFF` the high byte comes from the start of the same
/// page, not from the next one.
pub open spec fn bug_read16(m: Seq<u8>, ptr: u16) -> u16 {
    if ptr % 256 == 255 {
        word16(read8_at(m, ptr), read8_at(m, (ptr - 255) as u16))
    } else {
        read16_at(m, ptr)
    }
}

/// Whether adding the index to a base address carries into the high byte:
/// a page crossing.
pub open spec fn page_crossed(base: u16, index: u8) -> bool {
    base % 256 + index >= 256
}

/// The single operand byte following the opcode.
pub open spec fn operand_byte(s: Machine) -> u8 {
    read8_at(s.mem, wrap16(s.pc + 1))
}

/// The little-endian operand word following the opcode.
pub open spec fn operand_word(s: Machine) -> u16 {
    read16_at(s.mem, wrap16(s.pc + 1))
}

/// Resolve an addressing mode to its effective operand and the page-crossed
/// flag, with `s.pc` pointing at the opcode byte. Opaque: reasoning that
/// needs a mode's formula reveals this function.
#[verifier::opaque]
pub open spec fn resolve_spec(s: Machine, mode: AddrMode) -> (Operand, bool) {
    match mode {
        AddrMode::Undefined => (Operand::NoOperand, false),
        AddrMode::Implied => (Operand::NoOperand, false),
        AddrMode::Relative => (Operand::NoOperand, false),
        AddrMode::Accumulator => (Operand::Acc, false),
        AddrMode::Immediate => (Operand::Addr(wrap16(s.pc + 1)), false),
        AddrMode::ZeroPage => (Operand::Addr(operand_byte(s) as u16), false),
        AddrMode::ZeroPageX => (Operand::Addr(wrap8(operand_byte(s) + s.x) as u16), false),
        AddrMode::ZeroPageY => (Operand::Addr(wrap8(operand_byte(s) + s.y) as u16), false),
        AddrMode::Absolute => (Operand::Addr(operand_word(s)), false),
        AddrMode::AbsoluteX => (
            Operand::Addr(wrap16(operand_word(s) + s.x)),
            page_crossed(operand_word(s), s.x),
        ),
        AddrMode::AbsoluteY => (
            Operand::Addr(wrap16(operand_word(s) + s.y)),
            page_crossed(operand_word(s), s.y),
        ),
        AddrMode::Indirect => (Operand::Addr(bug_read16(s.mem, operand_word(s))), false),
        AddrMode::IndirectX => (
            Operand::Addr(zp_read16(s.mem, wrap8(operand_byte(s) + s.x))),
            false,
        ),
        AddrMode::IndirectY => (
            Operand::Addr(wrap16(zp_read16(s.mem, operand_byte(s)) + s.y)),
            page_crossed(zp_read16(s.mem, operand_byte(s)), s.y),
        ),
    }
}

} // verus!
