//! The general laws of the core, each proved once and for all inputs: memory
//! round trips, the branch cycle rule, decode faults, and the stack-pointer
//! ring.

use vstd::prelude::*;
use crate::machine::{
    read16_at, read8_at, wrap8, write16_at, write8_at, Machine, MEM_SIZE,
};
use crate::semantics::{branch_crosses_page, push_spec, step_cycles, step_fault};
use crate::table::instr_info;

verus! {

/// Writing a byte and reading the same address gives the byte back, at every
/// address and for every byte.
pub proof fn lemma_mem_round_trip(m: Seq<u8>, addr: u16, b: u8)
    requires
        m.len() == MEM_SIZE,
    ensures
        read8_at(write8_at(m, addr, b), addr) == b,
{
}

/// Writing a 16-bit word and reading the same address gives the word back,
/// at every address but `0xFFFF` (where the two halves would wrap apart) and
/// for every word: the little-endian split is lossless.
pub proof fn lemma_word_round_trip(m: Seq<u8>, addr: u16, w: u16)
    requires
        m.len() == MEM_SIZE,
        addr != 0xFFFF,
    ensures
        read16_at(write16_at(m, addr, w), addr) == w,
{
    vstd::arithmetic::div_mod::lemma_fundamental_div_mod(w as int, 256);
}

/// The branch cycle rule, on `BEQ` (opcode `0xF0`): not taken costs the base
/// 2 cycles; taken costs 3; taken onto another page costs 4.
pub proof fn lemma_branch_cycle_rule(s: Machine)
    requires
        s.wf(),
        read8_at(s.mem, s.pc) == 0xF0,
    ensures
        !s.z ==> step_cycles(s) == 2,
        s.z && !branch_crosses_page(s) ==> step_cycles(s) == 3,
        s.z && branch_crosses_page(s) ==> step_cycles(s) == 4,
{
    reveal(crate::table::instr_info);
    reveal(crate::semantics::branch_spec);
}

/// An opcode whose table entry is the undefined sentinel decodes to a fault,
/// whatever the rest of the machine holds; `0x02` is such an opcode.
pub proof fn lemma_opcode_without_instruction_faults(s: Machine)
    requires
        instr_info(read8_at(s.mem, s.pc)).mnemonic is Undefined,
    ensures
        step_fault(s),
{
}

/// Opcode `0x02` names no official instruction.
pub proof fn lemma_opcode_02_undefined()
    ensures
        instr_info(0x02).mnemonic is Undefined,
{
    reveal(crate::table::instr_info);
}

/// The shape of the opcode table, for every opcode byte: the undefined
/// sentinel carries length 0 and 0 cycles; every official entry consumes 1
/// to 3 bytes and 2 to 7 base cycles.
#[verifier::rlimit(100)]
#[verifier::spinoff_prover]
pub proof fn lemma_table_shape(op: u8)
    ensures
        instr_info(op).mnemonic is Undefined ==> instr_info(op).length == 0 && instr_info(
            op,
        ).cycles == 0,
        !(instr_info(op).mnemonic is Undefined) ==> 1 <= instr_info(op).length <= 3 && 2
            <= instr_info(op).cycles <= 7,
{
    reveal(crate::table::instr_info);
}

/// A push moves the stack pointer one place down the 8-bit ring, never out
/// of it: from `0x00` it wraps to `0xFF`, silently.
pub proof fn lemma_push_wraps(s: Machine, v: u8)
    ensures
        push_spec(s, v).sp == wrap8(s.sp - 1),
        s.sp == 0 ==> push_spec(s, v).sp == 0xFF,
        s.sp > 0 ==> push_spec(s, v).sp == s.sp - 1,
{
}

} // verus!
