//! The opcode table: a fixed mapping from each of the 256 opcode bytes to
//! (mnemonic, addressing mode, instruction length, base cycle count, and
//! whether a page crossing during operand resolution adds one cycle).
//!
//! The table holds exactly the official NMOS 6502 instruction set; every
//! other opcode byte maps to the explicit `Undefined` entry with length 0 and
//! 0 cycles, and executing one is a decode fault. [`instr_info`] is the
//! table as a specification; [`decode`] is the executable lookup, proved to
//! return the same entry for every opcode.

use vstd::prelude::*;

verus! {

/// The instruction mnemonics of the official 6502 instruction set, plus the
/// `Undefined` sentinel for the opcode bytes that decode to no instruction.
#[derive(Clone, Copy, PartialEq, Eq, Structural, Debug)]
pub enum Mnemonic {
    Undefined,
    Adc,
    And,
    Asl,
    Bcc,
    Bcs,
    Beq,
    Bit,
    Bmi,
    Bne,
    Bpl,
    Brk,
    Bvc,
    Bvs,
    Clc,
    Cld,
    Cli,
    Clv,
    Cmp,
    Cpx,
    Cpy,
    Dec,
    Dex,
    Dey,
    Eor,
    Inc,
    Inx,
    Iny,
    Jmp,
    Jsr,
    Lda,
    Ldx,
    Ldy,
    Lsr,
    Nop,
    Ora,
    Pha,
    Php,
    Pla,
    Plp,
    Rol,
    Ror,
    Rti,
    Rts,
    Sbc,
    Sec,
    Sed,
    Sei,
    Sta,
    Stx,
    Sty,
    Tax,
    Tay,
    Tsx,
    Txa,
    Txs,
    Tya,
}

/// The thirteen addressing modes of the 6502, plus the `Undefined` sentinel
/// used by the undefined table entry.
#[derive(Clone, Copy, PartialEq, Eq, Structural, Debug)]
pub enum AddrMode {
    Undefined,
    Implied,
    Accumulator,
    Immediate,
    ZeroPage,
    ZeroPageX,
    ZeroPageY,
    Absolute,
    AbsoluteX,
    AbsoluteY,
    Indirect,
    IndirectX,
    IndirectY,
    Relative,
}

/// One entry of the opcode table.
#[derive(Clone, Copy, PartialEq, Eq, Structural, Debug)]
pub struct Instruction {
    /// What the instruction does.
    pub mnemonic: Mnemonic,
    /// How its operand is located.
    pub mode: AddrMode,
    /// Total instruction length in bytes, opcode included.
    pub length: u8,
    /// Base cycle count, before page-crossing and branch-taken penalties.
    pub cycles: u8,
    /// True on the entries whose reads cost one more cycle when operand
    /// resolution crosses a page boundary.
    pub page_penalty: bool,
}

/// A table entry, as a specification value.
pub open spec fn entry(
    mnemonic: Mnemonic,
    mode: AddrMode,
    length: u8,
    cycles: u8,
    page_penalty: bool,
) -> Instruction {
    Instruction { mnemonic, mode, length, cycles, page_penalty }
}

/// The `Undefined` sentinel entry: no instruction, length 0, 0 cycles.
pub open spec fn undefined_entry() -> Instruction {
    entry(Mnemonic::Undefined, AddrMode::Undefined, 0, 0, false)
}

/// The opcode table, fixed per the 6502 reference: the entry for each of the
/// 256 opcode bytes. Opaque: reasoning that needs a concrete entry reveals
/// the table.
#[verifier::opaque]
pub open spec fn instr_info(op: u8) -> Instruction {
    match op {
        0x00 => entry(Mnemonic::Brk, AddrMode::Implied, 1, 7, false),
        0x01 => entry(Mnemonic::Ora, AddrMode::IndirectX, 2, 6, false),
        0x05 => entry(Mnemonic::Ora, AddrMode::ZeroPage, 2, 3, false),
        0x06 => entry(Mnemonic::Asl, AddrMode::ZeroPage, 2, 5, false),
        0x08 => entry(Mnemonic::Php, AddrMode::Implied, 1, 3, false),
        0x09 => entry(Mnemonic::Ora, AddrMode::Immediate, 2, 2, false),
        0x0A => entry(Mnemonic::Asl, AddrMode::Accumulator, 1, 2, false),
        0x0D => entry(Mnemonic::Ora, AddrMode::Absolute, 3, 4, false),
        0x0E => entry(Mnemonic::Asl, AddrMode::Absolute, 3, 6, false),
        0x10 => entry(Mnemonic::Bpl, AddrMode::Relative, 2, 2, false),
        0x11 => entry(Mnemonic::Ora, AddrMode::IndirectY, 2, 5, true),
        0x15 => entry(Mnemonic::Ora, AddrMode::ZeroPageX, 2, 4, false),
        0x16 => entry(Mnemonic::Asl, AddrMode::ZeroPageX, 2, 6, false),
        0x18 => entry(Mnemonic::Clc, AddrMode::Implied, 1, 2, false),
        0x19 => entry(Mnemonic::Ora, AddrMode::AbsoluteY, 3, 4, true),
        0x1D => entry(Mnemonic::Ora, AddrMode::AbsoluteX, 3, 4, true),
        0x1E => entry(Mnemonic::Asl, AddrMode::AbsoluteX, 3, 7, false),
        0x20 => entry(Mnemonic::Jsr, AddrMode::Absolute, 3, 6, false),
        0x21 => entry(Mnemonic::And, AddrMode::IndirectX, 2, 6, false),
        0x24 => entry(Mnemonic::Bit, AddrMode::ZeroPage, 2, 3, false),
        0x25 => entry(Mnemonic::And, AddrMode::ZeroPage, 2, 3, false),
        0x26 => entry(Mnemonic::Rol, AddrMode::ZeroPage, 2, 5, false),
        0x28 => entry(Mnemonic::Plp, AddrMode::Implied, 1, 4, false),
        0x29 => entry(Mnemonic::And, AddrMode::Immediate, 2, 2, false),
        0x2A => entry(Mnemonic::Rol, AddrMode::Accumulator, 1, 2, false),
        0x2C => entry(Mnemonic::Bit, AddrMode::Absolute, 3, 4, false),
        0x2D => entry(Mnemonic::And, AddrMode::Absolute, 3, 4, false),
        0x2E => entry(Mnemonic::Rol, AddrMode::Absolute, 3, 6, false),
        0x30 => entry(Mnemonic::Bmi, AddrMode::Relative, 2, 2, false),
        0x31 => entry(Mnemonic::And, AddrMode::IndirectY, 2, 5, true),
        0x35 => entry(Mnemonic::And, AddrMode::ZeroPageX, 2, 4, false),
        0x36 => entry(Mnemonic::Rol, AddrMode::ZeroPageX, 2, 6, false),
        0x38 => entry(Mnemonic::Sec, AddrMode::Implied, 1, 2, false),
        0x39 => entry(Mnemonic::And, AddrMode::AbsoluteY, 3, 4, true),
        0x3D => entry(Mnemonic::And, AddrMode::AbsoluteX, 3, 4, true),
        0x3E => entry(Mnemonic::Rol, AddrMode::AbsoluteX, 3, 7, false),
        0x40 => entry(Mnemonic::Rti, AddrMode::Implied, 1, 6, false),
        0x41 => entry(Mnemonic::Eor, AddrMode::IndirectX, 2, 6, false),
        0x45 => entry(Mnemonic::Eor, AddrMode::ZeroPage, 2, 3, false),
        0x46 => entry(Mnemonic::Lsr, AddrMode::ZeroPage, 2, 5, false),
        0x48 => entry(Mnemonic::Pha, AddrMode::Implied, 1, 3, false),
        0x49 => entry(Mnemonic::Eor, AddrMode::Immediate, 2, 2, false),
        0x4A => entry(Mnemonic::Lsr, AddrMode::Accumulator, 1, 2, false),
        0x4C => entry(Mnemonic::Jmp, AddrMode::Absolute, 3, 3, false),
        0x4D => entry(Mnemonic::Eor, AddrMode::Absolute, 3, 4, false),
        0x4E => entry(Mnemonic::Lsr, AddrMode::Absolute, 3, 6, false),
        0x50 => entry(Mnemonic::Bvc, AddrMode::Relative, 2, 2, false),
        0x51 => entry(Mnemonic::Eor, AddrMode::IndirectY, 2, 5, true),
        0x55 => entry(Mnemonic::Eor, AddrMode::ZeroPageX, 2, 4, false),
        0x56 => entry(Mnemonic::Lsr, AddrMode::ZeroPageX, 2, 6, false),
        0x58 => entry(Mnemonic::Cli, AddrMode::Implied, 1, 2, false),
        0x59 => entry(Mnemonic::Eor, AddrMode::AbsoluteY, 3, 4, true),
        0x5D => entry(Mnemonic::Eor, AddrMode::AbsoluteX, 3, 4, true),
        0x5E => entry(Mnemonic::Lsr, AddrMode::AbsoluteX, 3, 7, false),
        0x60 => entry(Mnemonic::Rts, AddrMode::Implied, 1, 6, false),
        0x61 => entry(Mnemonic::Adc, AddrMode::IndirectX, 2, 6, false),
        0x65 => entry(Mnemonic::Adc, AddrMode::ZeroPage, 2, 3, false),
        0x66 => entry(Mnemonic::Ror, AddrMode::ZeroPage, 2, 5, false),
        0x68 => entry(Mnemonic::Pla, AddrMode::Implied, 1, 4, false),
        0x69 => entry(Mnemonic::Adc, AddrMode::Immediate, 2, 2, false),
        0x6A => entry(Mnemonic::Ror, AddrMode::Accumulator, 1, 2, false),
        0x6C => entry(Mnemonic::Jmp, AddrMode::Indirect, 3, 5, false),
        0x6D => entry(Mnemonic::Adc, AddrMode::Absolute, 3, 4, false),
        0x6E => entry(Mnemonic::Ror, AddrMode::Absolute, 3, 6, false),
        0x70 => entry(Mnemonic::Bvs, AddrMode::Relative, 2, 2, false),
        0x71 => entry(Mnemonic::Adc, AddrMode::IndirectY, 2, 5, true),
        0x75 => entry(Mnemonic::Adc, AddrMode::ZeroPageX, 2, 4, false),
        0x76 => entry(Mnemonic::Ror, AddrMode::ZeroPageX, 2, 6, false),
        0x78 => entry(Mnemonic::Sei, AddrMode::Implied, 1, 2, false),
        0x79 => entry(Mnemonic::Adc, AddrMode::AbsoluteY, 3, 4, true),
        0x7D => entry(Mnemonic::Adc, AddrMode::AbsoluteX, 3, 4, true),
        0x7E => entry(Mnemonic::Ror, AddrMode::AbsoluteX, 3, 7, false),
        0x81 => entry(Mnemonic::Sta, AddrMode::IndirectX, 2, 6, false),
        0x84 => entry(Mnemonic::Sty, AddrMode::ZeroPage, 2, 3, false),
        0x85 => entry(Mnemonic::Sta, AddrMode::ZeroPage, 2, 3, false),
        0x86 => entry(Mnemonic::Stx, AddrMode::ZeroPage, 2, 3, false),
        0x88 => entry(Mnemonic::Dey, AddrMode::Implied, 1, 2, false),
        0x8A => entry(Mnemonic::Txa, AddrMode::Implied, 1, 2, false),
        0x8C => entry(Mnemonic::Sty, AddrMode::Absolute, 3, 4, false),
        0x8D => entry(Mnemonic::Sta, AddrMode::Absolute, 3, 4, false),
        0x8E => entry(Mnemonic::Stx, AddrMode::Absolute, 3, 4, false),
        0x90 => entry(Mnemonic::Bcc, AddrMode::Relative, 2, 2, false),
        0x91 => entry(Mnemonic::Sta, AddrMode::IndirectY, 2, 6, false),
        0x94 => entry(Mnemonic::Sty, AddrMode::ZeroPageX, 2, 4, false),
        0x95 => entry(Mnemonic::Sta, AddrMode::ZeroPageX, 2, 4, false),
        0x96 => entry(Mnemonic::Stx, AddrMode::ZeroPageY, 2, 4, false),
        0x98 => entry(Mnemonic::Tya, AddrMode::Implied, 1, 2, false),
        0x99 => entry(Mnemonic::Sta, AddrMode::AbsoluteY, 3, 5, false),
        0x9A => entry(Mnemonic::Txs, AddrMode::Implied, 1, 2, false),
        0x9D => entry(Mnemonic::Sta, AddrMode::AbsoluteX, 3, 5, false),
        0xA0 => entry(Mnemonic::Ldy, AddrMode::Immediate, 2, 2, false),
        0xA1 => entry(Mnemonic::Lda, AddrMode::IndirectX, 2, 6, false),
        0xA2 => entry(Mnemonic::Ldx, AddrMode::Immediate, 2, 2, false),
        0xA4 => entry(Mnemonic::Ldy, AddrMode::ZeroPage, 2, 3, false),
        0xA5 => entry(Mnemonic::Lda, AddrMode::ZeroPage, 2, 3, false),
        0xA6 => entry(Mnemonic::Ldx, AddrMode::ZeroPage, 2, 3, false),
        0xA8 => entry(Mnemonic::Tay, AddrMode::Implied, 1, 2, false),
        0xA9 => entry(Mnemonic::Lda, AddrMode::Immediate, 2, 2, false),
        0xAA => entry(Mnemonic::Tax, AddrMode::Implied, 1, 2, false),
        0xAC => entry(Mnemonic::Ldy, AddrMode::Absolute, 3, 4, false),
        0xAD => entry(Mnemonic::Lda, AddrMode::Absolute, 3, 4, false),
        0xAE => entry(Mnemonic::Ldx, AddrMode::Absolute, 3, 4, false),
        0xB0 => entry(Mnemonic::Bcs, AddrMode::Relative, 2, 2, false),
        0xB1 => entry(Mnemonic::Lda, AddrMode::IndirectY, 2, 5, true),
        0xB4 => entry(Mnemonic::Ldy, AddrMode::ZeroPageX, 2, 4, false),
        0xB5 => entry(Mnemonic::Lda, AddrMode::ZeroPageX, 2, 4, false),
        0xB6 => entry(Mnemonic::Ldx, AddrMode::ZeroPageY, 2, 4, false),
        0xB8 => entry(Mnemonic::Clv, AddrMode::Implied, 1, 2, false),
        0xB9 => entry(Mnemonic::Lda, AddrMode::AbsoluteY, 3, 4, true),
        0xBA => entry(Mnemonic::Tsx, AddrMode::Implied, 1, 2, false),
        0xBC => entry(Mnemonic::Ldy, AddrMode::AbsoluteX, 3, 4, true),
        0xBD => entry(Mnemonic::Lda, AddrMode::AbsoluteX, 3, 4, true),
        0xBE => entry(Mnemonic::Ldx, AddrMode::AbsoluteY, 3, 4, true),
        0xC0 => entry(Mnemonic::Cpy, AddrMode::Immediate, 2, 2, false),
        0xC1 => entry(Mnemonic::Cmp, AddrMode::IndirectX, 2, 6, false),
        0xC4 => entry(Mnemonic::Cpy, AddrMode::ZeroPage, 2, 3, false),
        0xC5 => entry(Mnemonic::Cmp, AddrMode::ZeroPage, 2, 3, false),
        0xC6 => entry(Mnemonic::Dec, AddrMode::ZeroPage, 2, 5, false),
        0xC8 => entry(Mnemonic::Iny, AddrMode::Implied, 1, 2, false),
        0xC9 => entry(Mnemonic::Cmp, AddrMode::Immediate, 2, 2, false),
        0xCA => entry(Mnemonic::Dex, AddrMode::Implied, 1, 2, false),
        0xCC => entry(Mnemonic::Cpy, AddrMode::Absolute, 3, 4, false),
        0xCD => entry(Mnemonic::Cmp, AddrMode::Absolute, 3, 4, false),
        0xCE => entry(Mnemonic::Dec, AddrMode::Absolute, 3, 6, false),
        0xD0 => entry(Mnemonic::Bne, AddrMode::Relative, 2, 2, false),
        0xD1 => entry(Mnemonic::Cmp, AddrMode::IndirectY, 2, 5, true),
        0xD5 => entry(Mnemonic::Cmp, AddrMode::ZeroPageX, 2, 4, false),
        0xD6 => entry(Mnemonic::Dec, AddrMode::ZeroPageX, 2, 6, false),
        0xD8 => entry(Mnemonic::Cld, AddrMode::Implied, 1, 2, false),
        0xD9 => entry(Mnemonic::Cmp, AddrMode::AbsoluteY, 3, 4, true),
        0xDD => entry(Mnemonic::Cmp, AddrMode::AbsoluteX, 3, 4, true),
        0xDE => entry(Mnemonic::Dec, AddrMode::AbsoluteX, 3, 7, false),
        0xE0 => entry(Mnemonic::Cpx, AddrMode::Immediate, 2, 2, false),
        0xE1 => entry(Mnemonic::Sbc, AddrMode::IndirectX, 2, 6, false),
        0xE4 => entry(Mnemonic::Cpx, AddrMode::ZeroPage, 2, 3, false),
        0xE5 => entry(Mnemonic::Sbc, AddrMode::ZeroPage, 2, 3, false),
        0xE6 => entry(Mnemonic::Inc, AddrMode::ZeroPage, 2, 5, false),
        0xE8 => entry(Mnemonic::Inx, AddrMode::Implied, 1, 2, false),
        0xE9 => entry(Mnemonic::Sbc, AddrMode::Immediate, 2, 2, false),
        0xEA => entry(Mnemonic::Nop, AddrMode::Implied, 1, 2, false),
        0xEC => entry(Mnemonic::Cpx, AddrMode::Absolute, 3, 4, false),
        0xED => entry(Mnemonic::Sbc, AddrMode::Absolute, 3, 4, false),
        0xEE => entry(Mnemonic::Inc, AddrMode::Absolute, 3, 6, false),
        0xF0 => entry(Mnemonic::Beq, AddrMode::Relative, 2, 2, false),
        0xF1 => entry(Mnemonic::Sbc, AddrMode::IndirectY, 2, 5, true),
        0xF5 => entry(Mnemonic::Sbc, AddrMode::ZeroPageX, 2, 4, false),
        0xF6 => entry(Mnemonic::Inc, AddrMode::ZeroPageX, 2, 6, false),
        0xF8 => entry(Mnemonic::Sed, AddrMode::Implied, 1, 2, false),
        0xF9 => entry(Mnemonic::Sbc, AddrMode::AbsoluteY, 3, 4, true),
        0xFD => entry(Mnemonic::Sbc, AddrMode::AbsoluteX, 3, 4, true),
        0xFE => entry(Mnemonic::Inc, AddrMode::AbsoluteX, 3, 7, false),
        _ => undefined_entry(),
    }
}

/// A table entry, built at run time.
fn make(
    mnemonic: Mnemonic,
    mode: AddrMode,
    length: u8,
    cycles: u8,
    page_penalty: bool,
) -> (r: Instruction)
    ensures
        r == entry(mnemonic, mode, length, cycles, page_penalty),
{
    Instruction { mnemonic, mode, length, cycles, page_penalty }
}

/// Look an opcode byte up in the table.
#[verifier::rlimit(30)]
pub fn decode(op: u8) -> (r: Instruction)
    ensures
        r == instr_info(op),
{
    proof {
        reveal(instr_info);
    }
    match op {
        0x00 => make(Mnemonic::Brk, AddrMode::Implied, 1, 7, false),
        0x01 => make(Mnemonic::Ora, AddrMode::IndirectX, 2, 6, false),
        0x05 => make(Mnemonic::Ora, AddrMode::ZeroPage, 2, 3, false),
        0x06 => make(Mnemonic::Asl, AddrMode::ZeroPage, 2, 5, false),
        0x08 => make(Mnemonic::Php, AddrMode::Implied, 1, 3, false),
        0x09 => make(Mnemonic::Ora, AddrMode::Immediate, 2, 2, false),
        0x0A => make(Mnemonic::Asl, AddrMode::Accumulator, 1, 2, false),
        0x0D => make(Mnemonic::Ora, AddrMode::Absolute, 3, 4, false),
        0x0E => make(Mnemonic::Asl, AddrMode::Absolute, 3, 6, false),
        0x10 => make(Mnemonic::Bpl, AddrMode::Relative, 2, 2, false),
        0x11 => make(Mnemonic::Ora, AddrMode::IndirectY, 2, 5, true),
        0x15 => make(Mnemonic::Ora, AddrMode::ZeroPageX, 2, 4, false),
        0x16 => make(Mnemonic::Asl, AddrMode::ZeroPageX, 2, 6, false),
        0x18 => make(Mnemonic::Clc, AddrMode::Implied, 1, 2, false),
        0x19 => make(Mnemonic::Ora, AddrMode::AbsoluteY, 3, 4, true),
        0x1D => make(Mnemonic::Ora, AddrMode::AbsoluteX, 3, 4, true),
        0x1E => make(Mnemonic::Asl, AddrMode::AbsoluteX, 3, 7, false),
        0x20 => make(Mnemonic::Jsr, AddrMode::Absolute, 3, 6, false),
        0x21 => make(Mnemonic::And, AddrMode::IndirectX, 2, 6, false),
        0x24 => make(Mnemonic::Bit, AddrMode::ZeroPage, 2, 3, false),
        0x25 => make(Mnemonic::And, AddrMode::ZeroPage, 2, 3, false),
        0x26 => make(Mnemonic::Rol, AddrMode::ZeroPage, 2, 5, false),
        0x28 => make(Mnemonic::Plp, AddrMode::Implied, 1, 4, false),
        0x29 => make(Mnemonic::And, AddrMode::Immediate, 2, 2, false),
        0x2A => make(Mnemonic::Rol, AddrMode::Accumulator, 1, 2, false),
        0x2C => make(Mnemonic::Bit, AddrMode::Absolute, 3, 4, false),
        0x2D => make(Mnemonic::And, AddrMode::Absolute, 3, 4, false),
        0x2E => make(Mnemonic::Rol, AddrMode::Absolute, 3, 6, false),
        0x30 => make(Mnemonic::Bmi, AddrMode::Relative, 2, 2, false),
        0x31 => make(Mnemonic::And, AddrMode::IndirectY, 2, 5, true),
        0x35 => make(Mnemonic::And, AddrMode::ZeroPageX, 2, 4, false),
        0x36 => make(Mnemonic::Rol, AddrMode::ZeroPageX, 2, 6, false),
        0x38 => make(Mnemonic::Sec, AddrMode::Implied, 1, 2, false),
        0x39 => make(Mnemonic::And, AddrMode::AbsoluteY, 3, 4, true),
        0x3D => make(Mnemonic::And, AddrMode::AbsoluteX, 3, 4, true),
        0x3E => make(Mnemonic::Rol, AddrMode::AbsoluteX, 3, 7, false),
        0x40 => make(Mnemonic::Rti, AddrMode::Implied, 1, 6, false),
        0x41 => make(Mnemonic::Eor, AddrMode::IndirectX, 2, 6, false),
        0x45 => make(Mnemonic::Eor, AddrMode::ZeroPage, 2, 3, false),
        0x46 => make(Mnemonic::Lsr, AddrMode::ZeroPage, 2, 5, false),
        0x48 => make(Mnemonic::Pha, AddrMode::Implied, 1, 3, false),
        0x49 => make(Mnemonic::Eor, AddrMode::Immediate, 2, 2, false),
        0x4A => make(Mnemonic::Lsr, AddrMode::Accumulator, 1, 2, false),
        0x4C => make(Mnemonic::Jmp, AddrMode::Absolute, 3, 3, false),
        0x4D => make(Mnemonic::Eor, AddrMode::Absolute, 3, 4, false),
        0x4E => make(Mnemonic::Lsr, AddrMode::Absolute, 3, 6, false),
        0x50 => make(Mnemonic::Bvc, AddrMode::Relative, 2, 2, false),
        0x51 => make(Mnemonic::Eor, AddrMode::IndirectY, 2, 5, true),
        0x55 => make(Mnemonic::Eor, AddrMode::ZeroPageX, 2, 4, false),
        0x56 => make(Mnemonic::Lsr, AddrMode::ZeroPageX, 2, 6, false),
        0x58 => make(Mnemonic::Cli, AddrMode::Implied, 1, 2, false),
        0x59 => make(Mnemonic::Eor, AddrMode::AbsoluteY, 3, 4, true),
        0x5D => make(Mnemonic::Eor, AddrMode::AbsoluteX, 3, 4, true),
        0x5E => make(Mnemonic::Lsr, AddrMode::AbsoluteX, 3, 7, false),
        0x60 => make(Mnemonic::Rts, AddrMode::Implied, 1, 6, false),
        0x61 => make(Mnemonic::Adc, AddrMode::IndirectX, 2, 6, false),
        0x65 => make(Mnemonic::Adc, AddrMode::ZeroPage, 2, 3, false),
        0x66 => make(Mnemonic::Ror, AddrMode::ZeroPage, 2, 5, false),
        0x68 => make(Mnemonic::Pla, AddrMode::Implied, 1, 4, false),
        0x69 => make(Mnemonic::Adc, AddrMode::Immediate, 2, 2, false),
        0x6A => make(Mnemonic::Ror, AddrMode::Accumulator, 1, 2, false),
        0x6C => make(Mnemonic::Jmp, AddrMode::Indirect, 3, 5, false),
        0x6D => make(Mnemonic::Adc, AddrMode::Absolute, 3, 4, false),
        0x6E => make(Mnemonic::Ror, AddrMode::Absolute, 3, 6, false),
        0x70 => make(Mnemonic::Bvs, AddrMode::Relative, 2, 2, false),
        0x71 => make(Mnemonic::Adc, AddrMode::IndirectY, 2, 5, true),
        0x75 => make(Mnemonic::Adc, AddrMode::ZeroPageX, 2, 4, false),
        0x76 => make(Mnemonic::Ror, AddrMode::ZeroPageX, 2, 6, false),
        0x78 => make(Mnemonic::Sei, AddrMode::Implied, 1, 2, false),
        0x79 => make(Mnemonic::Adc, AddrMode::AbsoluteY, 3, 4, true),
        0x7D => make(Mnemonic::Adc, AddrMode::AbsoluteX, 3, 4, true),
        0x7E => make(Mnemonic::Ror, AddrMode::AbsoluteX, 3, 7, false),
        0x81 => make(Mnemonic::Sta, AddrMode::IndirectX, 2, 6, false),
        0x84 => make(Mnemonic::Sty, AddrMode::ZeroPage, 2, 3, false),
        0x85 => make(Mnemonic::Sta, AddrMode::ZeroPage, 2, 3, false),
        0x86 => make(Mnemonic::Stx, AddrMode::ZeroPage, 2, 3, false),
        0x88 => make(Mnemonic::Dey, AddrMode::Implied, 1, 2, false),
        0x8A => make(Mnemonic::Txa, AddrMode::Implied, 1, 2, false),
        0x8C => make(Mnemonic::Sty, AddrMode::Absolute, 3, 4, false),
        0x8D => make(Mnemonic::Sta, AddrMode::Absolute, 3, 4, false),
        0x8E => make(Mnemonic::Stx, AddrMode::Absolute, 3, 4, false),
        0x90 => make(Mnemonic::Bcc, AddrMode::Relative, 2, 2, false),
        0x91 => make(Mnemonic::Sta, AddrMode::IndirectY, 2, 6, false),
        0x94 => make(Mnemonic::Sty, AddrMode::ZeroPageX, 2, 4, false),
        0x95 => make(Mnemonic::Sta, AddrMode::ZeroPageX, 2, 4, false),
        0x96 => make(Mnemonic::Stx, AddrMode::ZeroPageY, 2, 4, false),
        0x98 => make(Mnemonic::Tya, AddrMode::Implied, 1, 2, false),
        0x99 => make(Mnemonic::Sta, AddrMode::AbsoluteY, 3, 5, false),
        0x9A => make(Mnemonic::Txs, AddrMode::Implied, 1, 2, false),
        0x9D => make(Mnemonic::Sta, AddrMode::AbsoluteX, 3, 5, false),
        0xA0 => make(Mnemonic::Ldy, AddrMode::Immediate, 2, 2, false),
        0xA1 => make(Mnemonic::Lda, AddrMode::IndirectX, 2, 6, false),
        0xA2 => make(Mnemonic::Ldx, AddrMode::Immediate, 2, 2, false),
        0xA4 => make(Mnemonic::Ldy, AddrMode::ZeroPage, 2, 3, false),
        0xA5 => make(Mnemonic::Lda, AddrMode::ZeroPage, 2, 3, false),
        0xA6 => make(Mnemonic::Ldx, AddrMode::ZeroPage, 2, 3, false),
        0xA8 => make(Mnemonic::Tay, AddrMode::Implied, 1, 2, false),
        0xA9 => make(Mnemonic::Lda, AddrMode::Immediate, 2, 2, false),
        0xAA => make(Mnemonic::Tax, AddrMode::Implied, 1, 2, false),
        0xAC => make(Mnemonic::Ldy, AddrMode::Absolute, 3, 4, false),
        0xAD => make(Mnemonic::Lda, AddrMode::Absolute, 3, 4, false),
        0xAE => make(Mnemonic::Ldx, AddrMode::Absolute, 3, 4, false),
        0xB0 => make(Mnemonic::Bcs, AddrMode::Relative, 2, 2, false),
        0xB1 => make(Mnemonic::Lda, AddrMode::IndirectY, 2, 5, true),
        0xB4 => make(Mnemonic::Ldy, AddrMode::ZeroPageX, 2, 4, false),
        0xB5 => make(Mnemonic::Lda, AddrMode::ZeroPageX, 2, 4, false),
        0xB6 => make(Mnemonic::Ldx, AddrMode::ZeroPageY, 2, 4, false),
        0xB8 => make(Mnemonic::Clv, AddrMode::Implied, 1, 2, false),
        0xB9 => make(Mnemonic::Lda, AddrMode::AbsoluteY, 3, 4, true),
        0xBA => make(Mnemonic::Tsx, AddrMode::Implied, 1, 2, false),
        0xBC => make(Mnemonic::Ldy, AddrMode::AbsoluteX, 3, 4, true),
        0xBD => make(Mnemonic::Lda, AddrMode::AbsoluteX, 3, 4, true),
        0xBE => make(Mnemonic::Ldx, AddrMode::AbsoluteY, 3, 4, true),
        0xC0 => make(Mnemonic::Cpy, AddrMode::Immediate, 2, 2, false),
        0xC1 => make(Mnemonic::Cmp, AddrMode::IndirectX, 2, 6, false),
        0xC4 => make(Mnemonic::Cpy, AddrMode::ZeroPage, 2, 3, false),
        0xC5 => make(Mnemonic::Cmp, AddrMode::ZeroPage, 2, 3, false),
        0xC6 => make(Mnemonic::Dec, AddrMode::ZeroPage, 2, 5, false),
        0xC8 => make(Mnemonic::Iny, AddrMode::Implied, 1, 2, false),
        0xC9 => make(Mnemonic::Cmp, AddrMode::Immediate, 2, 2, false),
        0xCA => make(Mnemonic::Dex, AddrMode::Implied, 1, 2, false),
        0xCC => make(Mnemonic::Cpy, AddrMode::Absolute, 3, 4, false),
        0xCD => make(Mnemonic::Cmp, AddrMode::Absolute, 3, 4, false),
        0xCE => make(Mnemonic::Dec, AddrMode::Absolute, 3, 6, false),
        0xD0 => make(Mnemonic::Bne, AddrMode::Relative, 2, 2, false),
        0xD1 => make(Mnemonic::Cmp, AddrMode::IndirectY, 2, 5, true),
        0xD5 => make(Mnemonic::Cmp, AddrMode::ZeroPageX, 2, 4, false),
        0xD6 => make(Mnemonic::Dec, AddrMode::ZeroPageX, 2, 6, false),
        0xD8 => make(Mnemonic::Cld, AddrMode::Implied, 1, 2, false),
        0xD9 => make(Mnemonic::Cmp, AddrMode::AbsoluteY, 3, 4, true),
        0xDD => make(Mnemonic::Cmp, AddrMode::AbsoluteX, 3, 4, true),
        0xDE => make(Mnemonic::Dec, AddrMode::AbsoluteX, 3, 7, false),
        0xE0 => make(Mnemonic::Cpx, AddrMode::Immediate, 2, 2, false),
        0xE1 => make(Mnemonic::Sbc, AddrMode::IndirectX, 2, 6, false),
        0xE4 => make(Mnemonic::Cpx, AddrMode::ZeroPage, 2, 3, false),
        0xE5 => make(Mnemonic::Sbc, AddrMode::ZeroPage, 2, 3, false),
        0xE6 => make(Mnemonic::Inc, AddrMode::ZeroPage, 2, 5, false),
        0xE8 => make(Mnemonic::Inx, AddrMode::Implied, 1, 2, false),
        0xE9 => make(Mnemonic::Sbc, AddrMode::Immediate, 2, 2, false),
        0xEA => make(Mnemonic::Nop, AddrMode::Implied, 1, 2, false),
        0xEC => make(Mnemonic::Cpx, AddrMode::Absolute, 3, 4, false),
        0xED => make(Mnemonic::Sbc, AddrMode::Absolute, 3, 4, false),
        0xEE => make(Mnemonic::Inc, AddrMode::Absolute, 3, 6, false),
        0xF0 => make(Mnemonic::Beq, AddrMode::Relative, 2, 2, false),
        0xF1 => make(Mnemonic::Sbc, AddrMode::IndirectY, 2, 5, true),
        0xF5 => make(Mnemonic::Sbc, AddrMode::ZeroPageX, 2, 4, false),
        0xF6 => make(Mnemonic::Inc, AddrMode::ZeroPageX, 2, 6, false),
        0xF8 => make(Mnemonic::Sed, AddrMode::Implied, 1, 2, false),
        0xF9 => make(Mnemonic::Sbc, AddrMode::AbsoluteY, 3, 4, true),
        0xFD => make(Mnemonic::Sbc, AddrMode::AbsoluteX, 3, 4, true),
        0xFE => make(Mnemonic::Inc, AddrMode::AbsoluteX, 3, 7, false),
        _ => make(Mnemonic::Undefined, AddrMode::Undefined, 0, 0, false),
    }
}

} // verus!
