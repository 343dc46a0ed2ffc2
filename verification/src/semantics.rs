//! The meaning of one instruction: a transition function on the machine
//! model.
//!
//! [`step_result`] maps a machine whose `pc` points at a defined opcode to
//! the machine after that instruction and the cycles it consumed (base count
//! plus page-crossing and branch-taken penalties). [`step_fault`] says when
//! decoding faults instead. The executable [`crate::cpu::CPU::step`] is
//! proved to follow these functions exactly; the reset and interrupt entry
//! sequences are specified here as well.
//!
//! Decimal mode follows the canonical NMOS 6502 behaviour: for `ADC` the Z
//! flag comes from the pure binary sum while N and V come from the
//! intermediate sum before the high-nibble correction; for `SBC` all four
//! flags come from the binary subtraction and only the stored result is
//! BCD-adjusted.

use vstd::prelude::*;
use crate::addressing::{resolve_spec, Operand};
use crate::machine::{
    read8_at, read16_at, word16, wrap16, wrap8, write8_at, Machine, IRQ_VECTOR, NMI_VECTOR,
    RESET_VECTOR, STACK_PAGE,
};
use crate::status::{
    bit, byte_b, byte_c, byte_d, byte_i, byte_n, byte_v, byte_z, pack_flags,
};
use crate::table::{instr_info, Instruction, Mnemonic};

verus! {

/// The machine after pushing `v`: the byte lands at `0x0100 + sp` and `sp`
/// steps down one place around the 8-bit ring.
pub open spec fn push_spec(s: Machine, v: u8) -> Machine {
    Machine {
        mem: write8_at(s.mem, (STACK_PAGE + s.sp) as u16, v),
        sp: wrap8(s.sp - 1),
        ..s
    }
}

/// The machine after pulling a byte, and the byte: `sp` steps up one place
/// around the ring and the byte comes from `0x0100 + sp` at its new value.
pub open spec fn pull_spec(s: Machine) -> (Machine, u8) {
    let sp2 = wrap8(s.sp + 1);
    (Machine { sp: sp2, ..s }, read8_at(s.mem, (STACK_PAGE + sp2) as u16))
}

/// The byte an instruction operates on.
pub open spec fn operand_val(s: Machine, operand: Operand) -> u8 {
    match operand {
        Operand::Addr(addr) => read8_at(s.mem, addr),
        Operand::Acc => s.a,
        Operand::NoOperand => 0,
    }
}

/// The address an operand resolved to (meaningful only for `Operand::Addr`).
pub open spec fn operand_addr(operand: Operand) -> u16 {
    match operand {
        Operand::Addr(addr) => addr,
        Operand::Acc => 0,
        Operand::NoOperand => 0,
    }
}

/// Load `val` into the accumulator, setting N and Z.
pub open spec fn with_a(s: Machine, val: u8) -> Machine {
    Machine { a: val, n: val >= 128, z: val == 0, ..s }
}

/// Load `val` into X, setting N and Z.
pub open spec fn with_x(s: Machine, val: u8) -> Machine {
    Machine { x: val, n: val >= 128, z: val == 0, ..s }
}

/// Load `val` into Y, setting N and Z.
pub open spec fn with_y(s: Machine, val: u8) -> Machine {
    Machine { y: val, n: val >= 128, z: val == 0, ..s }
}

/// Store `val` at the operand address; stores touch no flag. (Store
/// instructions always resolve to an address; the other operand shapes
/// change nothing.)
pub open spec fn store_at(s: Machine, operand: Operand, val: u8) -> Machine {
    match operand {
        Operand::Addr(addr) => Machine { mem: write8_at(s.mem, addr, val), ..s },
        _ => s,
    }
}

/// Write a shift or rotate result back to the accumulator or to memory and
/// set N, Z and the carry produced by the shift.
pub open spec fn rmw_shift(s: Machine, operand: Operand, res: u8, cout: bool) -> Machine {
    match operand {
        Operand::Acc => Machine { a: res, n: res >= 128, z: res == 0, c: cout, ..s },
        Operand::Addr(addr) => Machine {
            mem: write8_at(s.mem, addr, res),
            n: res >= 128,
            z: res == 0,
            c: cout,
            ..s
        },
        Operand::NoOperand => Machine { n: res >= 128, z: res == 0, c: cout, ..s },
    }
}

/// Write an `INC`/`DEC` result back to memory and set N and Z.
pub open spec fn rmw_mem(s: Machine, operand: Operand, res: u8) -> Machine {
    match operand {
        Operand::Addr(addr) => Machine {
            mem: write8_at(s.mem, addr, res),
            n: res >= 128,
            z: res == 0,
            ..s
        },
        _ => Machine { n: res >= 128, z: res == 0, ..s },
    }
}

/// Flags of `CMP`/`CPX`/`CPY`: C when the register is at least the operand
/// (unsigned), Z on equality, N from bit 7 of the 8-bit difference.
pub open spec fn compare(s: Machine, reg: u8, m: u8) -> Machine {
    Machine { c: reg >= m, z: reg == m, n: wrap8(reg - m) >= 128, ..s }
}

/// Restore every flag from a pulled status byte, as `PLP` and `RTI` do.
pub open spec fn restore_flags(s: Machine, byte: u8) -> Machine {
    Machine {
        n: byte_n(byte),
        v: byte_v(byte),
        b: byte_b(byte),
        d: byte_d(byte),
        i: byte_i(byte),
        z: byte_z(byte),
        c: byte_c(byte),
        ..s
    }
}

/// `ADC`: result, carry out, overflow, N and Z for `a + m + c`.
///
/// In binary mode all flags follow the 8-bit sum; V is signed overflow, set
/// when the operands share a sign that the result does not. In decimal mode
/// (NMOS behaviour) Z still comes from the binary sum, N and V from the
/// intermediate sum after the low-nibble correction, and C from the final
/// BCD-corrected sum.
#[verifier::opaque]
pub open spec fn adc_spec(a: u8, m: u8, cin: bool, dec: bool) -> (u8, bool, bool, bool, bool) {
    if !dec {
        let sum = a + m + bit(cin);
        let res = wrap8(sum);
        (
            res,
            sum >= 256,
            (a >= 128) == (m >= 128) && ((res >= 128) != (a >= 128)),
            res >= 128,
            res == 0,
        )
    } else {
        let zf = wrap8(a + m + bit(cin)) == 0;
        let al = a % 16 + m % 16 + bit(cin);
        let al2 = if al >= 10 {
            (al + 6) % 16 + 16
        } else {
            al
        };
        let sum = (a / 16) * 16 + (m / 16) * 16 + al2;
        let nf = sum % 256 >= 128;
        let vf = (a >= 128) == (m >= 128) && ((sum % 256 >= 128) != (a >= 128));
        let sum2 = if sum >= 160 {
            sum + 96
        } else {
            sum
        };
        (wrap8(sum2), sum2 >= 256, vf, nf, zf)
    }
}

/// `SBC`: result, carry out, overflow, N and Z for `a - m - (1 - c)`.
///
/// The flags always follow the binary subtraction: C is the cleared borrow
/// (set when no borrow was needed), V is signed overflow. In decimal mode
/// (NMOS behaviour) only the stored result is BCD-adjusted.
#[verifier::opaque]
pub open spec fn sbc_spec(a: u8, m: u8, cin: bool, dec: bool) -> (u8, bool, bool, bool, bool) {
    let diff = a - m - (1 - bit(cin));
    let res = wrap8(diff);
    let cf = diff >= 0;
    let vf = (a >= 128) != (m >= 128) && ((res >= 128) != (a >= 128));
    if !dec {
        (res, cf, vf, res >= 128, res == 0)
    } else {
        let al = a % 16 - m % 16 - (1 - bit(cin));
        let al2 = if al < 0 {
            (al - 6) % 16 - 16
        } else {
            al
        };
        let sum = (a / 16) * 16 - (m / 16) * 16 + al2;
        let sum2 = if sum < 0 {
            sum - 96
        } else {
            sum
        };
        (wrap8(sum2), cf, vf, res >= 128, res == 0)
    }
}

/// The branch target: the signed displacement added to the address just past
/// the branch instruction, with 16-bit wraparound.
pub open spec fn branch_target(pc_after: u16, off: u8) -> u16 {
    if off >= 128 {
        wrap16(pc_after + off - 256)
    } else {
        wrap16(pc_after + off)
    }
}

/// Whether a taken branch at `s.pc` lands on another page than the
/// fall-through address, which costs one more cycle.
pub open spec fn branch_crosses_page(s: Machine) -> bool {
    branch_target(wrap16(s.pc + 2), read8_at(s.mem, wrap16(s.pc + 1))) / 256 != wrap16(s.pc + 2)
        / 256
}

/// One branch instruction from `s` (with `pc` at the opcode): fall through
/// for 2 cycles when not taken; when taken, jump to the target for 3 cycles,
/// or 4 when the target sits on another page than the fall-through address.
#[verifier::opaque]
pub open spec fn branch_spec(s: Machine, taken: bool) -> (Machine, u8) {
    let pc_after = wrap16(s.pc + 2);
    if taken {
        let target = branch_target(pc_after, read8_at(s.mem, wrap16(s.pc + 1)));
        let cycles: u8 = if target / 256 != pc_after / 256 {
            4
        } else {
            3
        };
        (Machine { pc: target, ..s }, cycles)
    } else {
        (Machine { pc: pc_after, ..s }, 2)
    }
}

/// Base cycles of a table entry plus the page-crossing penalty where the
/// entry pays one.
pub open spec fn cycle_cost(ins: Instruction, crossed: bool) -> u8 {
    if crossed && ins.page_penalty {
        wrap8(ins.cycles + 1)
    } else {
        ins.cycles
    }
}

/// Whether fetching at `pc` hits an opcode with no official instruction:
/// a decode fault.
pub open spec fn step_fault(s: Machine) -> bool {
    instr_info(read8_at(s.mem, s.pc)).mnemonic is Undefined
}

/// The machine after one instruction, with the cycles it consumed.
/// Meaningful only when `!step_fault(s)`.
pub open spec fn step_result(s: Machine) -> (Machine, u8) {
    let op = read8_at(s.mem, s.pc);
    let ins = instr_info(op);
    let resolved = resolve_spec(s, ins.mode);
    let operand = resolved.0;
    let crossed = resolved.1;
    let m = operand_val(s, operand);
    let s2 = Machine { pc: wrap16(s.pc + ins.length), ..s };
    let cyc = cycle_cost(ins, crossed);
    match ins.mnemonic {
        Mnemonic::Lda => (with_a(s2, m), cyc),
        Mnemonic::Ldx => (with_x(s2, m), cyc),
        Mnemonic::Ldy => (with_y(s2, m), cyc),
        Mnemonic::Sta => (store_at(s2, operand, s.a), cyc),
        Mnemonic::Stx => (store_at(s2, operand, s.x), cyc),
        Mnemonic::Sty => (store_at(s2, operand, s.y), cyc),
        Mnemonic::Adc => {
            let r = adc_spec(s.a, m, s.c, s.d);
            (Machine { a: r.0, c: r.1, v: r.2, n: r.3, z: r.4, ..s2 }, cyc)
        },
        Mnemonic::Sbc => {
            let r = sbc_spec(s.a, m, s.c, s.d);
            (Machine { a: r.0, c: r.1, v: r.2, n: r.3, z: r.4, ..s2 }, cyc)
        },
        Mnemonic::And => (with_a(s2, s.a & m), cyc),
        Mnemonic::Ora => (with_a(s2, s.a | m), cyc),
        Mnemonic::Eor => (with_a(s2, s.a ^ m), cyc),
        Mnemonic::Asl => (rmw_shift(s2, operand, wrap8(2 * m), m >= 128), cyc),
        Mnemonic::Lsr => (rmw_shift(s2, operand, m / 2, m % 2 == 1), cyc),
        Mnemonic::Rol => (rmw_shift(s2, operand, wrap8(2 * m + bit(s.c)), m >= 128), cyc),
        Mnemonic::Ror => (rmw_shift(s2, operand, (m / 2 + 128 * bit(s.c)) as u8, m % 2 == 1), cyc),
        Mnemonic::Cmp => (compare(s2, s.a, m), cyc),
        Mnemonic::Cpx => (compare(s2, s.x, m), cyc),
        Mnemonic::Cpy => (compare(s2, s.y, m), cyc),
        Mnemonic::Bit => (
            Machine { n: m >= 128, v: m / 64 % 2 == 1, z: (s.a & m) == 0, ..s2 },
            cyc,
        ),
        Mnemonic::Inc => (rmw_mem(s2, operand, wrap8(m + 1)), cyc),
        Mnemonic::Dec => (rmw_mem(s2, operand, wrap8(m - 1)), cyc),
        Mnemonic::Inx => (with_x(s2, wrap8(s.x + 1)), cyc),
        Mnemonic::Iny => (with_y(s2, wrap8(s.y + 1)), cyc),
        Mnemonic::Dex => (with_x(s2, wrap8(s.x - 1)), cyc),
        Mnemonic::Dey => (with_y(s2, wrap8(s.y - 1)), cyc),
        Mnemonic::Bcc => branch_spec(s, !s.c),
        Mnemonic::Bcs => branch_spec(s, s.c),
        Mnemonic::Beq => branch_spec(s, s.z),
        Mnemonic::Bne => branch_spec(s, !s.z),
        Mnemonic::Bmi => branch_spec(s, s.n),
        Mnemonic::Bpl => branch_spec(s, !s.n),
        Mnemonic::Bvc => branch_spec(s, !s.v),
        Mnemonic::Bvs => branch_spec(s, s.v),
        Mnemonic::Jmp => (Machine { pc: operand_addr(operand), ..s2 }, cyc),
        Mnemonic::Jsr => {
            let ret = wrap16(s.pc + 2);
            let s3 = push_spec(push_spec(s2, (ret / 256) as u8), wrap8(ret as int));
            (Machine { pc: operand_addr(operand), ..s3 }, cyc)
        },
        Mnemonic::Rts => {
            let p1 = pull_spec(s2);
            let p2 = pull_spec(p1.0);
            (Machine { pc: wrap16(word16(p1.1, p2.1) + 1), ..p2.0 }, cyc)
        },
        Mnemonic::Pha => (push_spec(s2, s.a), cyc),
        Mnemonic::Pla => {
            let p = pull_spec(s2);
            (with_a(p.0, p.1), cyc)
        },
        Mnemonic::Php => (
            push_spec(s2, pack_flags(s.n, s.v, true, s.d, s.i, s.z, s.c)),
            cyc,
        ),
        Mnemonic::Plp => {
            let p = pull_spec(s2);
            (restore_flags(p.0, p.1), cyc)
        },
        Mnemonic::Brk => {
            let ret = wrap16(s.pc + 2);
            let s3 = push_spec(push_spec(s2, (ret / 256) as u8), wrap8(ret as int));
            let s4 = push_spec(s3, pack_flags(s.n, s.v, true, s.d, s.i, s.z, s.c));
            (Machine { i: true, pc: read16_at(s4.mem, IRQ_VECTOR), ..s4 }, cyc)
        },
        Mnemonic::Rti => {
            let p1 = pull_spec(s2);
            let sf = restore_flags(p1.0, p1.1);
            let p2 = pull_spec(sf);
            let p3 = pull_spec(p2.0);
            (Machine { pc: word16(p2.1, p3.1), ..p3.0 }, cyc)
        },
        Mnemonic::Tax => (with_x(s2, s.a), cyc),
        Mnemonic::Tay => (with_y(s2, s.a), cyc),
        Mnemonic::Tsx => (with_x(s2, s.sp), cyc),
        Mnemonic::Txa => (with_a(s2, s.x), cyc),
        Mnemonic::Txs => (Machine { sp: s.x, ..s2 }, cyc),
        Mnemonic::Tya => (with_a(s2, s.y), cyc),
        Mnemonic::Clc => (Machine { c: false, ..s2 }, cyc),
        Mnemonic::Sec => (Machine { c: true, ..s2 }, cyc),
        Mnemonic::Cli => (Machine { i: false, ..s2 }, cyc),
        Mnemonic::Sei => (Machine { i: true, ..s2 }, cyc),
        Mnemonic::Clv => (Machine { v: false, ..s2 }, cyc),
        Mnemonic::Cld => (Machine { d: false, ..s2 }, cyc),
        Mnemonic::Sed => (Machine { d: true, ..s2 }, cyc),
        Mnemonic::Nop => (s2, cyc),
        Mnemonic::Undefined => (s, 0),
    }
}

/// The machine after one instruction.
pub open spec fn step_next(s: Machine) -> Machine {
    step_result(s).0
}

/// The cycles one instruction consumes.
pub open spec fn step_cycles(s: Machine) -> u8 {
    step_result(s).1
}

/// Reset: set the interrupt-disable flag and load `pc` from the reset
/// vector. Nothing else changes — no register, no flag, no memory byte.
pub open spec fn reset_spec(s: Machine) -> Machine {
    Machine { i: true, pc: read16_at(s.mem, RESET_VECTOR), ..s }
}

/// The entry sequence shared by NMI and IRQ: push `pc` high byte then low
/// byte, push the status byte with the break bit clear, set the
/// interrupt-disable flag.
pub open spec fn interrupt_push(s: Machine) -> Machine {
    let s1 = push_spec(s, (s.pc / 256) as u8);
    let s2 = push_spec(s1, wrap8(s.pc as int));
    let s3 = push_spec(s2, pack_flags(s.n, s.v, false, s.d, s.i, s.z, s.c));
    Machine { i: true, ..s3 }
}

/// A non-maskable interrupt: the entry sequence, then `pc` from the NMI
/// vector.
pub open spec fn nmi_spec(s: Machine) -> Machine {
    let s3 = interrupt_push(s);
    Machine { pc: read16_at(s3.mem, NMI_VECTOR), ..s3 }
}

/// A hardware IRQ, when honoured: the entry sequence, then `pc` from the
/// IRQ vector.
pub open spec fn irq_spec(s: Machine) -> Machine {
    let s3 = interrupt_push(s);
    Machine { pc: read16_at(s3.mem, IRQ_VECTOR), ..s3 }
}

} // verus!
