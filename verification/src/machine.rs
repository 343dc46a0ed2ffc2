//! Mathematical model of the 6502 machine state.
//!
//! `Machine` is the ghost counterpart of the executable [`crate::cpu::CPU`]:
//! registers, the seven condition flags, and the 64KB memory as a `Seq<u8>`.
//! All contracts of the library are stated over this model.

use vstd::prelude::*;

verus! {

/// Size of the address space: the 6502 addresses 64KB of memory.
pub const MEM_SIZE: usize = 0x10000;

/// The reset vector: `reset` loads `pc` from the word at this address.
pub const RESET_VECTOR: u16 = 0xFFFC;

/// The NMI vector: a non-maskable interrupt loads `pc` from the word here.
pub const NMI_VECTOR: u16 = 0xFFFA;

/// The IRQ/BRK vector: `BRK` and a hardware IRQ load `pc` from the word here.
pub const IRQ_VECTOR: u16 = 0xFFFE;

/// Base of the stack page: the stack lives at `0x0100 + sp`.
pub const STACK_PAGE: u16 = 0x0100;

/// The complete machine state, as mathematics.
#[verifier::ext_equal]
pub struct Machine {
    /// Program counter: address of the next instruction.
    pub pc: u16,
    /// Stack pointer: an 8-bit ring combined with the fixed page `0x01`.
    pub sp: u8,
    /// Accumulator.
    pub a: u8,
    /// Index registers.
    pub x: u8,
    pub y: u8,
    /// Negative flag (bit 7 of the status byte).
    pub n: bool,
    /// Overflow flag (bit 6).
    pub v: bool,
    /// Break flag (bit 4).
    pub b: bool,
    /// Decimal flag (bit 3).
    pub d: bool,
    /// Interrupt-disable flag (bit 2).
    pub i: bool,
    /// Zero flag (bit 1).
    pub z: bool,
    /// Carry flag (bit 0).
    pub c: bool,
    /// The 64KB memory, byte for byte.
    pub mem: Seq<u8>,
}

impl Machine {
    /// A machine is well formed when its memory covers the full address space.
    pub open spec fn wf(self) -> bool {
        self.mem.len() == MEM_SIZE
    }
}

/// Reduce an integer to a byte, as 8-bit hardware does.
pub open spec fn wrap8(v: int) -> u8 {
    (v % 256) as u8
}

/// Reduce an integer to a 16-bit address, as the address bus does.
pub open spec fn wrap16(v: int) -> u16 {
    (v % 0x10000) as u16
}

/// Combine a low and a high byte into a little-endian word.
pub open spec fn word16(lo: u8, hi: u8) -> u16 {
    (lo + 256 * hi) as u16
}

/// The byte stored at `addr`.
pub open spec fn read8_at(m: Seq<u8>, addr: u16) -> u8 {
    m[addr as int]
}

/// The memory after storing `v` at `addr`.
pub open spec fn write8_at(m: Seq<u8>, addr: u16, v: u8) -> Seq<u8> {
    m.update(addr as int, v)
}

/// The little-endian word at `addr`: low byte at `addr`, high byte at
/// `addr + 1`, the high address wrapping to `0x0000` past `0xFFFF`.
pub open spec fn read16_at(m: Seq<u8>, addr: u16) -> u16 {
    word16(read8_at(m, addr), read8_at(m, wrap16(addr + 1)))
}

/// The memory after storing the word `w` at `addr` in little-endian order,
/// the high address wrapping to `0x0000` past `0xFFFF`.
pub open spec fn write16_at(m: Seq<u8>, addr: u16, w: u16) -> Seq<u8> {
    write8_at(write8_at(m, addr, wrap8(w as int)), wrap16(addr + 1), (w / 256) as u8)
}

/// The memory after copying `data` in starting at `addr`; defined for
/// images that fit below the end of the address space.
pub open spec fn mounted(m: Seq<u8>, addr: u16, data: Seq<u8>) -> Seq<u8> {
    Seq::new(
        m.len(),
        |j: int|
            if addr <= j < addr + data.len() {
                data[j - addr]
            } else {
                m[j]
            },
    )
}

} // verus!
