//! The executable CPU: registers, flags and the 64KB memory, with every
//! operation proved against the model in [`crate::machine`] and the
//! transition functions in [`crate::semantics`].

use vstd::prelude::*;
use crate::addressing::{resolve_spec, Operand};
use crate::machine::{
    mounted, read8_at, read16_at, wrap16, wrap8, write8_at, write16_at, Machine, IRQ_VECTOR,
    MEM_SIZE, NMI_VECTOR, RESET_VECTOR, STACK_PAGE,
};
use crate::semantics::{
    adc_spec, branch_spec, compare, cycle_cost, interrupt_push, irq_spec, nmi_spec, operand_addr,
    operand_val, pull_spec, push_spec, reset_spec, restore_flags, rmw_mem, rmw_shift, sbc_spec,
    step_cycles, step_fault, step_next, store_at, with_a, with_x, with_y,
};
use crate::status::{bit, pack_flags};
use crate::table::{decode, instr_info, AddrMode, Instruction, Mnemonic};

verus! {

/// A decode fault: the opcode byte at `pc` names no official instruction.
/// `step` reports it and leaves the machine untouched.
#[derive(Clone, Copy, PartialEq, Eq, Structural, Debug)]
pub struct DecodeFault {
    /// The offending opcode byte.
    pub opcode: u8,
    /// The address it was fetched from.
    pub pc: u16,
}

/// A rejected `mount_mem`: the image would run past the end of the address
/// space. Memory is left untouched.
#[derive(Clone, Copy, PartialEq, Eq, Structural, Debug)]
pub struct MountError {
    /// The requested start address.
    pub addr: u16,
    /// The length of the rejected image.
    pub len: usize,
}

/// The complete machine state: registers, flags and onboard memory.
pub struct CPU {
    // Program counter.
    pc: u16,
    // Stack pointer: an 8-bit ring under page 0x01.
    sp: u8,
    // Accumulator register.
    a: u8,
    // Index registers.
    x: u8,
    y: u8,
    // Flags.
    n: bool,
    v: bool,
    b: bool,
    d: bool,
    i: bool,
    z: bool,
    c: bool,
    // Onboard memory.
    mem: Vec<u8>,
}

impl View for CPU {
    type V = Machine;

    closed spec fn view(&self) -> Machine {
        Machine {
            pc: self.pc,
            sp: self.sp,
            a: self.a,
            x: self.x,
            y: self.y,
            n: self.n,
            v: self.v,
            b: self.b,
            d: self.d,
            i: self.i,
            z: self.z,
            c: self.c,
            mem: self.mem@,
        }
    }
}

/// Power on a CPU: every register and flag zero, every memory byte zero.
pub fn new() -> (cpu: CPU)
    ensures
        cpu.wf(),
        cpu@.pc == 0,
        cpu@.sp == 0,
        cpu@.a == 0,
        cpu@.x == 0,
        cpu@.y == 0,
        !cpu@.n && !cpu@.v && !cpu@.b && !cpu@.d && !cpu@.i && !cpu@.z && !cpu@.c,
        forall|j: int| 0 <= j < MEM_SIZE ==> cpu@.mem[j] == 0,
{
    let mut mem: Vec<u8> = Vec::new();
    while mem.len() < MEM_SIZE
        invariant
            mem@.len() <= MEM_SIZE,
            forall|j: int| 0 <= j < mem@.len() ==> mem@[j] == 0,
        decreases MEM_SIZE - mem@.len(),
    {
        mem.push(0);
    }
    CPU {
        pc: 0,
        sp: 0,
        a: 0,
        x: 0,
        y: 0,
        n: false,
        v: false,
        b: false,
        d: false,
        i: false,
        z: false,
        c: false,
        mem,
    }
}

/// Add two addresses with 16-bit wraparound.
fn wadd16(a: u16, b: u16) -> (r: u16)
    ensures
        r == wrap16(a + b),
{
    let sum: u32 = a as u32 + b as u32;
    (sum % 0x10000) as u16
}

/// Add two bytes with 8-bit wraparound.
fn wadd8(a: u8, b: u8) -> (r: u8)
    ensures
        r == wrap8(a + b),
{
    let sum: u16 = a as u16 + b as u16;
    (sum % 256) as u8
}

/// The address an operand resolved to; meaningful only for `Operand::Addr`.
fn addr_of(operand: Operand) -> (r: u16)
    ensures
        r == operand_addr(operand),
{
    match operand {
        Operand::Addr(addr) => addr,
        _ => 0,
    }
}

/// Subtract a byte from a byte with 8-bit wraparound.
fn wsub8(a: u8, b: u8) -> (r: u8)
    ensures
        r == wrap8(a - b),
{
    if a >= b {
        a - b
    } else {
        proof {
            vstd::arithmetic::div_mod::lemma_mod_multiples_vanish(1, a - b, 256);
        }
        255 - b + a + 1
    }
}

impl CPU {
    /// Validity: the memory vector covers the full 64KB address space.
    /// `new` establishes it and every operation preserves it.
    pub open spec fn wf(&self) -> bool {
        self@.wf()
    }

    /// The program counter.
    pub fn pc(&self) -> (r: u16)
        ensures
            r == self@.pc,
    {
        self.pc
    }

    /// The stack pointer.
    pub fn sp(&self) -> (r: u8)
        ensures
            r == self@.sp,
    {
        self.sp
    }

    /// The accumulator.
    pub fn a(&self) -> (r: u8)
        ensures
            r == self@.a,
    {
        self.a
    }

    /// The X index register.
    pub fn x(&self) -> (r: u8)
        ensures
            r == self@.x,
    {
        self.x
    }

    /// The Y index register.
    pub fn y(&self) -> (r: u8)
        ensures
            r == self@.y,
    {
        self.y
    }

    /// The negative flag.
    pub fn flag_n(&self) -> (r: bool)
        ensures
            r == self@.n,
    {
        self.n
    }

    /// The overflow flag.
    pub fn flag_v(&self) -> (r: bool)
        ensures
            r == self@.v,
    {
        self.v
    }

    /// The break flag.
    pub fn flag_b(&self) -> (r: bool)
        ensures
            r == self@.b,
    {
        self.b
    }

    /// The decimal flag.
    pub fn flag_d(&self) -> (r: bool)
        ensures
            r == self@.d,
    {
        self.d
    }

    /// The interrupt-disable flag.
    pub fn flag_i(&self) -> (r: bool)
        ensures
            r == self@.i,
    {
        self.i
    }

    /// The zero flag.
    pub fn flag_z(&self) -> (r: bool)
        ensures
            r == self@.z,
    {
        self.z
    }

    /// The carry flag.
    pub fn flag_c(&self) -> (r: bool)
        ensures
            r == self@.c,
    {
        self.c
    }

    /// The canonical status byte composed from the flags; bit 5 reads 1.
    pub fn status(&self) -> (r: u8)
        ensures
            r == pack_flags(self@.n, self@.v, self@.b, self@.d, self@.i, self@.z, self@.c),
    {
        self.pack_status(self.b)
    }

    /// Compose the status byte, with the break bit as the pusher wants it.
    fn pack_status(&self, brk_bit: bool) -> (r: u8)
        ensures
            r == pack_flags(self@.n, self@.v, brk_bit, self@.d, self@.i, self@.z, self@.c),
    {
        let mut r: u8 = 32;
        if self.n {
            r = r + 128;
        }
        if self.v {
            r = r + 64;
        }
        if brk_bit {
            r = r + 16;
        }
        if self.d {
            r = r + 8;
        }
        if self.i {
            r = r + 4;
        }
        if self.z {
            r = r + 2;
        }
        if self.c {
            r = r + 1;
        }
        r
    }

    /// Restore every flag from a status byte, as `PLP` and `RTI` do.
    fn unpack_status(&mut self, byte: u8)
        ensures
            final(self)@ == restore_flags(old(self)@, byte),
    {
        self.n = byte / 128 % 2 == 1;
        self.v = byte / 64 % 2 == 1;
        self.b = byte / 16 % 2 == 1;
        self.d = byte / 8 % 2 == 1;
        self.i = byte / 4 % 2 == 1;
        self.z = byte / 2 % 2 == 1;
        self.c = byte % 2 == 1;
    }

    /// Read the byte at `addr`. Total: every address is valid.
    pub fn read8(&self, addr: u16) -> (r: u8)
        requires
            self.wf(),
        ensures
            r == read8_at(self@.mem, addr),
    {
        self.mem[addr as usize]
    }

    /// Store `v` at `addr`. Total; nothing but that byte changes.
    pub fn write8(&mut self, addr: u16, v: u8)
        requires
            old(self).wf(),
        ensures
            final(self).wf(),
            final(self)@ == (Machine { mem: write8_at(old(self)@.mem, addr, v), ..old(self)@ }),
    {
        self.mem.set(addr as usize, v);
    }

    /// Read the little-endian word at `addr`: low byte at `addr`, high byte
    /// at `addr + 1`, wrapping to `0x0000` past the end of memory.
    pub fn read16(&self, addr: u16) -> (r: u16)
        requires
            self.wf(),
        ensures
            r == read16_at(self@.mem, addr),
    {
        let lo = self.read8(addr);
        let hi = self.read8(wadd16(addr, 1));
        lo as u16 + 256 * hi as u16
    }

    /// Store the word `w` at `addr` in little-endian order, the high byte
    /// wrapping to `0x0000` past the end of memory.
    pub fn write16(&mut self, addr: u16, w: u16)
        requires
            old(self).wf(),
        ensures
            final(self).wf(),
            final(self)@ == (Machine { mem: write16_at(old(self)@.mem, addr, w), ..old(self)@ }),
    {
        self.write8(addr, (w % 256) as u8);
        let hi_addr = wadd16(addr, 1);
        self.write8(hi_addr, (w / 256) as u8);
    }

    /// Read a byte for inspection by a host; the same contract as `read8`.
    pub fn read_mem(&self, addr: u16) -> (r: u8)
        requires
            self.wf(),
        ensures
            r == read8_at(self@.mem, addr),
    {
        self.read8(addr)
    }

    /// Copy `data` into memory starting at `addr`. Rejected, with memory
    /// untouched, exactly when the image would run past the end of the
    /// address space.
    pub fn mount_mem(&mut self, addr: u16, data: &[u8]) -> (r: Result<(), MountError>)
        requires
            old(self).wf(),
        ensures
            final(self).wf(),
            match r {
                Ok(()) => addr + data@.len() <= MEM_SIZE && final(self)@ == (Machine {
                    mem: mounted(old(self)@.mem, addr, data@),
                    ..old(self)@
                }),
                Err(e) => addr + data@.len() > MEM_SIZE && final(self)@ == old(self)@ && e
                    == (MountError { addr, len: data@.len() as usize }),
            },
    {
        if data.len() > MEM_SIZE - addr as usize {
            return Err(MountError { addr, len: data.len() });
        }
        let mut idx: usize = 0;
        while idx < data.len()
            invariant
                self.wf(),
                idx <= data@.len(),
                addr + data@.len() <= MEM_SIZE,
                self@ == (Machine {
                    mem: self@.mem,
                    ..old(self)@
                }),
                forall|j: int|
                    0 <= j < MEM_SIZE && !(addr <= j < addr + idx) ==> self@.mem[j] == old(
                        self,
                    )@.mem[j],
                forall|j: int| addr <= j < addr + idx ==> self@.mem[j] == data@[j - addr],
            decreases data@.len() - idx,
        {
            self.mem.set(addr as usize + idx, data[idx]);
            idx = idx + 1;
        }
        proof {
            assert(self@.mem =~= mounted(old(self)@.mem, addr, data@));
            assert(self@ =~= (Machine { mem: mounted(old(self)@.mem, addr, data@), ..old(self)@ }));
        }
        Ok(())
    }

    /// Push a byte: it lands at `0x0100 + sp` and `sp` steps down one place
    /// around the 8-bit ring — the stack wraps, it never overflows.
    pub fn push(&mut self, v: u8)
        requires
            old(self).wf(),
        ensures
            final(self).wf(),
            final(self)@ == push_spec(old(self)@, v),
    {
        let addr: u16 = STACK_PAGE + self.sp as u16;
        self.mem.set(addr as usize, v);
        self.sp = wsub8(self.sp, 1);
    }

    /// Pull a byte: `sp` steps up one place around the ring and the byte
    /// comes from `0x0100 + sp` at its new value.
    pub fn pull(&mut self) -> (r: u8)
        requires
            old(self).wf(),
        ensures
            final(self).wf(),
            final(self)@ == pull_spec(old(self)@).0,
            r == pull_spec(old(self)@).1,
    {
        self.sp = wadd8(self.sp, 1);
        let addr: u16 = STACK_PAGE + self.sp as u16;
        self.mem[addr as usize]
    }

    /// Reset: set the interrupt-disable flag and load `pc` from the reset
    /// vector at `0xFFFC`. No other register, flag or memory byte changes.
    pub fn reset(&mut self)
        requires
            old(self).wf(),
        ensures
            final(self).wf(),
            final(self)@ == reset_spec(old(self)@),
    {
        let target = self.read16(RESET_VECTOR);
        self.i = true;
        self.pc = target;
    }

    /// A non-maskable interrupt, always honoured: push `pc` (high byte
    /// first) and the status byte with the break bit clear, set the
    /// interrupt-disable flag, and load `pc` from the NMI vector.
    pub fn nmi(&mut self)
        requires
            old(self).wf(),
        ensures
            final(self).wf(),
            final(self)@ == nmi_spec(old(self)@),
    {
        self.interrupt_entry();
        self.pc = self.read16(NMI_VECTOR);
    }

    /// A hardware IRQ, honoured only while the interrupt-disable flag is
    /// clear: the same entry sequence as NMI, with `pc` loaded from the
    /// IRQ/BRK vector. Returns whether the interrupt was serviced.
    pub fn irq(&mut self) -> (serviced: bool)
        requires
            old(self).wf(),
        ensures
            final(self).wf(),
            old(self)@.i ==> !serviced && final(self)@ == old(self)@,
            !old(self)@.i ==> serviced && final(self)@ == irq_spec(old(self)@),
    {
        if self.i {
            return false;
        }
        self.interrupt_entry();
        self.pc = self.read16(IRQ_VECTOR);
        true
    }

    /// Fetch the opcode byte at `pc`.
    pub fn fetch(&self) -> (op: u8)
        requires
            self.wf(),
        ensures
            op == read8_at(self@.mem, self@.pc),
    {
        self.read8(self.pc)
    }

    /// The little-endian word at zero-page address `zp`, the pointer fetch
    /// wrapping within page 0.
    fn read16_zp(&self, zp: u8) -> (r: u16)
        requires
            self.wf(),
        ensures
            r == crate::addressing::zp_read16(self@.mem, zp),
    {
        let lo = self.read8(zp as u16);
        let hi = self.read8(wadd8(zp, 1) as u16);
        lo as u16 + 256 * hi as u16
    }

    /// The word at `ptr` as the `JMP (addr)` hardware reads it: with the low
    /// byte of `ptr` at `0xFF`, the high byte comes from the start of the
    /// same page.
    fn read16_bug(&self, ptr: u16) -> (r: u16)
        requires
            self.wf(),
        ensures
            r == crate::addressing::bug_read16(self@.mem, ptr),
    {
        if ptr % 256 == 255 {
            let lo = self.read8(ptr);
            let hi = self.read8(ptr - 255);
            lo as u16 + 256 * hi as u16
        } else {
            self.read16(ptr)
        }
    }

    /// Resolve an addressing mode to its effective operand and the
    /// page-crossed flag, with `pc` pointing at the opcode byte.
    fn resolve(&self, mode: AddrMode) -> (r: (Operand, bool))
        requires
            self.wf(),
        ensures
            r == resolve_spec(self@, mode),
    {
        proof {
            reveal(crate::addressing::resolve_spec);
        }
        match mode {
            AddrMode::Undefined => (Operand::NoOperand, false),
            AddrMode::Implied => (Operand::NoOperand, false),
            AddrMode::Relative => (Operand::NoOperand, false),
            AddrMode::Accumulator => (Operand::Acc, false),
            AddrMode::Immediate => (Operand::Addr(wadd16(self.pc, 1)), false),
            AddrMode::ZeroPage => (Operand::Addr(self.read8(wadd16(self.pc, 1)) as u16), false),
            AddrMode::ZeroPageX => {
                let base = self.read8(wadd16(self.pc, 1));
                (Operand::Addr(wadd8(base, self.x) as u16), false)
            },
            AddrMode::ZeroPageY => {
                let base = self.read8(wadd16(self.pc, 1));
                (Operand::Addr(wadd8(base, self.y) as u16), false)
            },
            AddrMode::Absolute => (Operand::Addr(self.read16(wadd16(self.pc, 1))), false),
            AddrMode::AbsoluteX => {
                let base = self.read16(wadd16(self.pc, 1));
                (Operand::Addr(wadd16(base, self.x as u16)), base % 256 + self.x as u16 >= 256)
            },
            AddrMode::AbsoluteY => {
                let base = self.read16(wadd16(self.pc, 1));
                (Operand::Addr(wadd16(base, self.y as u16)), base % 256 + self.y as u16 >= 256)
            },
            AddrMode::Indirect => {
                let ptr = self.read16(wadd16(self.pc, 1));
                (Operand::Addr(self.read16_bug(ptr)), false)
            },
            AddrMode::IndirectX => {
                let base = self.read8(wadd16(self.pc, 1));
                (Operand::Addr(self.read16_zp(wadd8(base, self.x))), false)
            },
            AddrMode::IndirectY => {
                let base = self.read8(wadd16(self.pc, 1));
                let ptr = self.read16_zp(base);
                (Operand::Addr(wadd16(ptr, self.y as u16)), ptr % 256 + self.y as u16 >= 256)
            },
        }
    }

    /// The byte an instruction operates on.
    fn operand_value(&self, operand: Operand) -> (r: u8)
        requires
            self.wf(),
        ensures
            r == operand_val(self@, operand),
    {
        match operand {
            Operand::Addr(addr) => self.read8(addr),
            Operand::Acc => self.a,
            Operand::NoOperand => 0,
        }
    }

    /// Load `val` into the accumulator, setting N and Z.
    fn set_a_nz(&mut self, val: u8)
        ensures
            final(self)@ == with_a(old(self)@, val),
    {
        self.a = val;
        self.n = val >= 128;
        self.z = val == 0;
    }

    /// Load `val` into X, setting N and Z.
    fn set_x_nz(&mut self, val: u8)
        ensures
            final(self)@ == with_x(old(self)@, val),
    {
        self.x = val;
        self.n = val >= 128;
        self.z = val == 0;
    }

    /// Load `val` into Y, setting N and Z.
    fn set_y_nz(&mut self, val: u8)
        ensures
            final(self)@ == with_y(old(self)@, val),
    {
        self.y = val;
        self.n = val >= 128;
        self.z = val == 0;
    }

    /// Store `val` at the operand address; stores touch no flag.
    fn store_operand(&mut self, operand: Operand, val: u8)
        requires
            old(self).wf(),
        ensures
            final(self).wf(),
            final(self)@ == store_at(old(self)@, operand, val),
    {
        match operand {
            Operand::Addr(addr) => {
                self.mem.set(addr as usize, val);
            },
            _ => {},
        }
    }

    /// Write a shift or rotate result back and set N, Z and the carry the
    /// shift produced.
    fn write_shift(&mut self, operand: Operand, res: u8, cout: bool)
        requires
            old(self).wf(),
        ensures
            final(self).wf(),
            final(self)@ == rmw_shift(old(self)@, operand, res, cout),
    {
        match operand {
            Operand::Acc => {
                self.a = res;
            },
            Operand::Addr(addr) => {
                self.mem.set(addr as usize, res);
            },
            Operand::NoOperand => {},
        }
        self.n = res >= 128;
        self.z = res == 0;
        self.c = cout;
    }

    /// Write an `INC`/`DEC` result back to memory and set N and Z.
    fn write_rmw(&mut self, operand: Operand, res: u8)
        requires
            old(self).wf(),
        ensures
            final(self).wf(),
            final(self)@ == rmw_mem(old(self)@, operand, res),
    {
        match operand {
            Operand::Addr(addr) => {
                self.mem.set(addr as usize, res);
            },
            _ => {},
        }
        self.n = res >= 128;
        self.z = res == 0;
    }

    /// `ADC`: add the operand and the carry into the accumulator.
    #[verifier::rlimit(100)]
    #[verifier::spinoff_prover]
    fn op_adc(&mut self, m: u8)
        ensures
            ({
                let r = adc_spec(old(self)@.a, m, old(self)@.c, old(self)@.d);
                final(self)@ == (Machine {
                    a: r.0,
                    c: r.1,
                    v: r.2,
                    n: r.3,
                    z: r.4,
                    ..old(self)@
                })
            }),
    {
        proof {
            reveal(crate::semantics::adc_spec);
        }
        let carry: u16 = if self.c {
            1
        } else {
            0
        };
        if !self.d {
            let sum: u16 = self.a as u16 + m as u16 + carry;
            let res = (sum % 256) as u8;
            self.v = ((self.a >= 128) == (m >= 128)) && ((res >= 128) != (self.a >= 128));
            self.c = sum >= 256;
            self.n = res >= 128;
            self.z = res == 0;
            self.a = res;
        } else {
            let bin: u16 = self.a as u16 + m as u16 + carry;
            self.z = bin % 256 == 0;
            let al: u16 = (self.a % 16) as u16 + (m % 16) as u16 + carry;
            let al2: u16 = if al >= 10 {
                (al + 6) % 16 + 16
            } else {
                al
            };
            let sum: u16 = (self.a / 16) as u16 * 16 + (m / 16) as u16 * 16 + al2;
            self.n = sum % 256 >= 128;
            self.v = ((self.a >= 128) == (m >= 128)) && ((sum % 256 >= 128) != (self.a >= 128));
            let sum2: u16 = if sum >= 160 {
                sum + 96
            } else {
                sum
            };
            self.c = sum2 >= 256;
            self.a = (sum2 % 256) as u8;
        }
    }

    /// `SBC`: subtract the operand and the borrow from the accumulator.
    #[verifier::rlimit(100)]
    #[verifier::spinoff_prover]
    fn op_sbc(&mut self, m: u8)
        ensures
            ({
                let r = sbc_spec(old(self)@.a, m, old(self)@.c, old(self)@.d);
                final(self)@ == (Machine {
                    a: r.0,
                    c: r.1,
                    v: r.2,
                    n: r.3,
                    z: r.4,
                    ..old(self)@
                })
            }),
    {
        proof {
            reveal(crate::semantics::sbc_spec);
        }
        let borrow: u16 = if self.c {
            0
        } else {
            1
        };
        // The binary difference, shifted by 256 to stay non-negative.
        let diff_s: u16 = 256 + self.a as u16 - m as u16 - borrow;
        let res = (diff_s % 256) as u8;
        proof {
            vstd::arithmetic::div_mod::lemma_mod_multiples_vanish(
                1,
                old(self)@.a - m - (1 - bit(old(self)@.c)),
                256,
            );
        }
        let cf = diff_s >= 256;
        let vf = ((self.a >= 128) != (m >= 128)) && ((res >= 128) != (self.a >= 128));
        if !self.d {
            self.a = res;
        } else {
            // The NMOS decimal adjustment, with each intermediate shifted
            // into non-negative range.
            let al_s: u16 = 16 + (self.a % 16) as u16 - (m % 16) as u16 - borrow;
            let al2_s: u16 = if al_s < 16 {
                proof {
                    vstd::arithmetic::div_mod::lemma_mod_multiples_vanish(-2, al_s + 10, 16);
                }
                (al_s + 10) % 16
            } else {
                al_s
            };
            let sum_s: u16 = 256 + (self.a / 16) as u16 * 16 + al2_s - (m / 16) as u16 * 16 - 16;
            let res_d: u8 = if sum_s < 256 {
                proof {
                    vstd::arithmetic::div_mod::lemma_mod_multiples_vanish(-2, sum_s + 160, 256);
                }
                ((sum_s + 160) % 256) as u8
            } else {
                proof {
                    vstd::arithmetic::div_mod::lemma_mod_multiples_vanish(-1, sum_s as int, 256);
                }
                (sum_s % 256) as u8
            };
            self.a = res_d;
        }
        self.c = cf;
        self.v = vf;
        self.n = res >= 128;
        self.z = res == 0;
    }

    /// `CMP`/`CPX`/`CPY` flags for `reg` against `m`.
    fn compare_with(&mut self, reg: u8, m: u8)
        ensures
            final(self)@ == compare(old(self)@, reg, m),
    {
        self.c = reg >= m;
        self.z = reg == m;
        self.n = wsub8(reg, m) >= 128;
    }

    /// One branch instruction, `pc0` being the address of its opcode.
    fn do_branch(&mut self, pc0: u16, taken: bool) -> (cycles: u8)
        requires
            old(self).wf(),
        ensures
            final(self).wf(),
            final(self)@ == branch_spec((Machine { pc: pc0, ..old(self)@ }), taken).0,
            cycles == branch_spec((Machine { pc: pc0, ..old(self)@ }), taken).1,
    {
        proof {
            reveal(crate::semantics::branch_spec);
        }
        let pc_after = wadd16(pc0, 2);
        if taken {
            let off = self.read8(wadd16(pc0, 1));
            let target = if off >= 128 {
                proof {
                    vstd::arithmetic::div_mod::lemma_mod_multiples_vanish(
                        1,
                        pc_after + off - 256,
                        0x10000,
                    );
                }
                wadd16(pc_after, off as u16 + 0xFF00)
            } else {
                wadd16(pc_after, off as u16)
            };
            let cycles: u8 = if target / 256 != pc_after / 256 {
                4
            } else {
                3
            };
            self.pc = target;
            cycles
        } else {
            self.pc = pc_after;
            2
        }
    }

    /// What the group handlers below share: the machine still sits at the
    /// opcode of the defined instruction `ins`, whose operand has resolved
    /// to `operand` and `crossed`, with `m` the operand byte.
    pub open spec fn ready_for(
        &self,
        ins: Instruction,
        operand: Operand,
        crossed: bool,
        m: u8,
    ) -> bool {
        &&& self.wf()
        &&& ins == instr_info(read8_at(self@.mem, self@.pc))
        &&& !step_fault(self@)
        &&& (operand, crossed) == resolve_spec(self@, ins.mode)
        &&& m == operand_val(self@, operand)
    }

    /// Advance `pc` past the instruction and compute its cycle cost.
    fn consume(&mut self, ins: Instruction, crossed: bool) -> (cyc: u8)
        requires
            old(self).wf(),
        ensures
            final(self).wf(),
            final(self)@ == (Machine { pc: wrap16(old(self)@.pc + ins.length), ..old(self)@ }),
            cyc == cycle_cost(ins, crossed),
    {
        self.pc = wadd16(self.pc, ins.length as u16);
        if crossed && ins.page_penalty {
            ((ins.cycles as u16 + 1) % 256) as u8
        } else {
            ins.cycles
        }
    }

    /// The loads, stores, register transfers, single-flag instructions and
    /// `NOP`.
    #[verifier::rlimit(100)]
    #[verifier::spinoff_prover]
    fn exec_transfer(&mut self, ins: Instruction, operand: Operand, crossed: bool, m: u8) -> (cycles:
        u8)
        requires
            old(self).ready_for(ins, operand, crossed, m),
            ins.mnemonic is Lda || ins.mnemonic is Ldx || ins.mnemonic is Ldy || ins.mnemonic is Sta
                || ins.mnemonic is Stx || ins.mnemonic is Sty || ins.mnemonic is Tax
                || ins.mnemonic is Tay || ins.mnemonic is Tsx || ins.mnemonic is Txa
                || ins.mnemonic is Txs || ins.mnemonic is Tya || ins.mnemonic is Clc
                || ins.mnemonic is Sec || ins.mnemonic is Cli || ins.mnemonic is Sei
                || ins.mnemonic is Clv || ins.mnemonic is Cld || ins.mnemonic is Sed
                || ins.mnemonic is Nop,
        ensures
            final(self).wf(),
            final(self)@ == step_next(old(self)@),
            cycles == step_cycles(old(self)@),
    {
        let cyc = self.consume(ins, crossed);
        match ins.mnemonic {
            Mnemonic::Lda => self.set_a_nz(m),
            Mnemonic::Ldx => self.set_x_nz(m),
            Mnemonic::Ldy => self.set_y_nz(m),
            Mnemonic::Sta => {
                let val = self.a;
                self.store_operand(operand, val);
            },
            Mnemonic::Stx => {
                let val = self.x;
                self.store_operand(operand, val);
            },
            Mnemonic::Sty => {
                let val = self.y;
                self.store_operand(operand, val);
            },
            Mnemonic::Tax => {
                let val = self.a;
                self.set_x_nz(val);
            },
            Mnemonic::Tay => {
                let val = self.a;
                self.set_y_nz(val);
            },
            Mnemonic::Tsx => {
                let val = self.sp;
                self.set_x_nz(val);
            },
            Mnemonic::Txa => {
                let val = self.x;
                self.set_a_nz(val);
            },
            Mnemonic::Txs => {
                self.sp = self.x;
            },
            Mnemonic::Tya => {
                let val = self.y;
                self.set_a_nz(val);
            },
            Mnemonic::Clc => {
                self.c = false;
            },
            Mnemonic::Sec => {
                self.c = true;
            },
            Mnemonic::Cli => {
                self.i = false;
            },
            Mnemonic::Sei => {
                self.i = true;
            },
            Mnemonic::Clv => {
                self.v = false;
            },
            Mnemonic::Cld => {
                self.d = false;
            },
            Mnemonic::Sed => {
                self.d = true;
            },
            _ => {},
        }
        cyc
    }

    /// The arithmetic, logical, shift, compare, bit-test and
    /// increment/decrement instructions.
    #[verifier::rlimit(100)]
    #[verifier::spinoff_prover]
    fn exec_alu(&mut self, ins: Instruction, operand: Operand, crossed: bool, m: u8) -> (cycles: u8)
        requires
            old(self).ready_for(ins, operand, crossed, m),
            ins.mnemonic is Adc || ins.mnemonic is Sbc || ins.mnemonic is And || ins.mnemonic is Ora
                || ins.mnemonic is Eor || ins.mnemonic is Asl || ins.mnemonic is Lsr
                || ins.mnemonic is Rol || ins.mnemonic is Ror || ins.mnemonic is Cmp
                || ins.mnemonic is Cpx || ins.mnemonic is Cpy || ins.mnemonic is Bit
                || ins.mnemonic is Inc || ins.mnemonic is Dec || ins.mnemonic is Inx
                || ins.mnemonic is Iny || ins.mnemonic is Dex || ins.mnemonic is Dey,
        ensures
            final(self).wf(),
            final(self)@ == step_next(old(self)@),
            cycles == step_cycles(old(self)@),
    {
        let cyc = self.consume(ins, crossed);
        match ins.mnemonic {
            Mnemonic::Adc => self.op_adc(m),
            Mnemonic::Sbc => self.op_sbc(m),
            Mnemonic::And => {
                let val = self.a & m;
                self.set_a_nz(val);
            },
            Mnemonic::Ora => {
                let val = self.a | m;
                self.set_a_nz(val);
            },
            Mnemonic::Eor => {
                let val = self.a ^ m;
                self.set_a_nz(val);
            },
            Mnemonic::Asl => {
                let res = ((m as u16 * 2) % 256) as u8;
                self.write_shift(operand, res, m >= 128);
            },
            Mnemonic::Lsr => self.write_shift(operand, m / 2, m % 2 == 1),
            Mnemonic::Rol => {
                let carry: u16 = if self.c {
                    1
                } else {
                    0
                };
                let res = ((m as u16 * 2 + carry) % 256) as u8;
                self.write_shift(operand, res, m >= 128);
            },
            Mnemonic::Ror => {
                let res = m / 2 + if self.c {
                    128u8
                } else {
                    0u8
                };
                self.write_shift(operand, res, m % 2 == 1);
            },
            Mnemonic::Cmp => {
                let reg = self.a;
                self.compare_with(reg, m);
            },
            Mnemonic::Cpx => {
                let reg = self.x;
                self.compare_with(reg, m);
            },
            Mnemonic::Cpy => {
                let reg = self.y;
                self.compare_with(reg, m);
            },
            Mnemonic::Bit => {
                self.n = m >= 128;
                self.v = m / 64 % 2 == 1;
                self.z = (self.a & m) == 0;
            },
            Mnemonic::Inc => self.write_rmw(operand, wadd8(m, 1)),
            Mnemonic::Dec => self.write_rmw(operand, wsub8(m, 1)),
            Mnemonic::Inx => {
                let val = wadd8(self.x, 1);
                self.set_x_nz(val);
            },
            Mnemonic::Iny => {
                let val = wadd8(self.y, 1);
                self.set_y_nz(val);
            },
            Mnemonic::Dex => {
                let val = wsub8(self.x, 1);
                self.set_x_nz(val);
            },
            Mnemonic::Dey => {
                let val = wsub8(self.y, 1);
                self.set_y_nz(val);
            },
            _ => {},
        }
        cyc
    }

    /// The branches and jumps.
    #[verifier::rlimit(100)]
    #[verifier::spinoff_prover]
    fn exec_flow(&mut self, ins: Instruction, operand: Operand, crossed: bool, m: u8) -> (cycles: u8)
        requires
            old(self).ready_for(ins, operand, crossed, m),
            ins.mnemonic is Bcc || ins.mnemonic is Bcs || ins.mnemonic is Beq || ins.mnemonic is Bne
                || ins.mnemonic is Bmi || ins.mnemonic is Bpl || ins.mnemonic is Bvc
                || ins.mnemonic is Bvs || ins.mnemonic is Jmp || ins.mnemonic is Jsr
                || ins.mnemonic is Rts,
        ensures
            final(self).wf(),
            final(self)@ == step_next(old(self)@),
            cycles == step_cycles(old(self)@),
    {
        let pc0 = self.pc;
        let cyc = self.consume(ins, crossed);
        match ins.mnemonic {
            Mnemonic::Bcc => {
                let taken = !self.c;
                self.do_branch(pc0, taken)
            },
            Mnemonic::Bcs => {
                let taken = self.c;
                self.do_branch(pc0, taken)
            },
            Mnemonic::Beq => {
                let taken = self.z;
                self.do_branch(pc0, taken)
            },
            Mnemonic::Bne => {
                let taken = !self.z;
                self.do_branch(pc0, taken)
            },
            Mnemonic::Bmi => {
                let taken = self.n;
                self.do_branch(pc0, taken)
            },
            Mnemonic::Bpl => {
                let taken = !self.n;
                self.do_branch(pc0, taken)
            },
            Mnemonic::Bvc => {
                let taken = !self.v;
                self.do_branch(pc0, taken)
            },
            Mnemonic::Bvs => {
                let taken = self.v;
                self.do_branch(pc0, taken)
            },
            Mnemonic::Jmp => {
                self.pc = addr_of(operand);
                cyc
            },
            Mnemonic::Jsr => {
                let target = addr_of(operand);
                let ret = wadd16(pc0, 2);
                self.push((ret / 256) as u8);
                self.push((ret % 256) as u8);
                self.pc = target;
                cyc
            },
            Mnemonic::Rts => {
                let lo = self.pull();
                let hi = self.pull();
                self.pc = wadd16(lo as u16 + 256 * hi as u16, 1);
                cyc
            },
            _ => cyc,
        }
    }

    /// The stack instructions, `BRK` and `RTI`.
    #[verifier::rlimit(100)]
    #[verifier::spinoff_prover]
    fn exec_stack(&mut self, ins: Instruction, operand: Operand, crossed: bool, m: u8) -> (cycles:
        u8)
        requires
            old(self).ready_for(ins, operand, crossed, m),
            ins.mnemonic is Pha || ins.mnemonic is Pla || ins.mnemonic is Php || ins.mnemonic is Plp
                || ins.mnemonic is Brk || ins.mnemonic is Rti,
        ensures
            final(self).wf(),
            final(self)@ == step_next(old(self)@),
            cycles == step_cycles(old(self)@),
    {
        let pc0 = self.pc;
        let cyc = self.consume(ins, crossed);
        match ins.mnemonic {
            Mnemonic::Pha => {
                let val = self.a;
                self.push(val);
            },
            Mnemonic::Pla => {
                let val = self.pull();
                self.set_a_nz(val);
            },
            Mnemonic::Php => {
                let sb = self.pack_status(true);
                self.push(sb);
            },
            Mnemonic::Plp => {
                let sb = self.pull();
                self.unpack_status(sb);
            },
            Mnemonic::Brk => {
                let ret = wadd16(pc0, 2);
                self.push((ret / 256) as u8);
                self.push((ret % 256) as u8);
                let sb = self.pack_status(true);
                self.push(sb);
                self.i = true;
                self.pc = self.read16(IRQ_VECTOR);
            },
            Mnemonic::Rti => {
                let sb = self.pull();
                self.unpack_status(sb);
                let lo = self.pull();
                let hi = self.pull();
                self.pc = lo as u16 + 256 * hi as u16;
            },
            _ => {},
        }
        cyc
    }

    /// Resolve and perform the instruction at `pc`, which must be a defined
    /// one, and return the cycles it consumed.
    pub fn execute(&mut self, ins: Instruction) -> (cycles: u8)
        requires
            old(self).wf(),
            ins == instr_info(read8_at(old(self)@.mem, old(self)@.pc)),
            !step_fault(old(self)@),
        ensures
            final(self).wf(),
            final(self)@ == step_next(old(self)@),
            cycles == step_cycles(old(self)@),
    {
        let resolved = self.resolve(ins.mode);
        let operand = resolved.0;
        let crossed = resolved.1;
        let m = self.operand_value(operand);
        match ins.mnemonic {
            Mnemonic::Lda | Mnemonic::Ldx | Mnemonic::Ldy | Mnemonic::Sta | Mnemonic::Stx
                | Mnemonic::Sty | Mnemonic::Tax | Mnemonic::Tay | Mnemonic::Tsx | Mnemonic::Txa
                | Mnemonic::Txs | Mnemonic::Tya | Mnemonic::Clc | Mnemonic::Sec | Mnemonic::Cli
                | Mnemonic::Sei | Mnemonic::Clv | Mnemonic::Cld | Mnemonic::Sed
                | Mnemonic::Nop => self.exec_transfer(ins, operand, crossed, m),
            Mnemonic::Adc | Mnemonic::Sbc | Mnemonic::And | Mnemonic::Ora | Mnemonic::Eor
                | Mnemonic::Asl | Mnemonic::Lsr | Mnemonic::Rol | Mnemonic::Ror | Mnemonic::Cmp
                | Mnemonic::Cpx | Mnemonic::Cpy | Mnemonic::Bit | Mnemonic::Inc | Mnemonic::Dec
                | Mnemonic::Inx | Mnemonic::Iny | Mnemonic::Dex | Mnemonic::Dey => self.exec_alu(
                ins,
                operand,
                crossed,
                m,
            ),
            Mnemonic::Bcc | Mnemonic::Bcs | Mnemonic::Beq | Mnemonic::Bne | Mnemonic::Bmi
                | Mnemonic::Bpl | Mnemonic::Bvc | Mnemonic::Bvs | Mnemonic::Jmp | Mnemonic::Jsr
                | Mnemonic::Rts => self.exec_flow(ins, operand, crossed, m),
            Mnemonic::Pha | Mnemonic::Pla | Mnemonic::Php | Mnemonic::Plp | Mnemonic::Brk
                | Mnemonic::Rti => self.exec_stack(ins, operand, crossed, m),
            Mnemonic::Undefined => 0,
        }
    }

    /// Execute exactly one instruction: fetch the opcode at `pc`, look it up,
    /// and either perform it and return its cycle cost, or — on an opcode
    /// with no official instruction — report a decode fault with the machine
    /// left exactly as it was.
    pub fn step(&mut self) -> (r: Result<u8, DecodeFault>)
        requires
            old(self).wf(),
        ensures
            final(self).wf(),
            match r {
                Ok(cycles) => !step_fault(old(self)@) && final(self)@ == step_next(old(self)@)
                    && cycles == step_cycles(old(self)@),
                Err(fault) => step_fault(old(self)@) && final(self)@ == old(self)@ && fault
                    == (DecodeFault {
                    opcode: read8_at(old(self)@.mem, old(self)@.pc),
                    pc: old(self)@.pc,
                }),
            },
    {
        let op = self.fetch();
        let ins = decode(op);
        if matches!(ins.mnemonic, Mnemonic::Undefined) {
            return Err(DecodeFault { opcode: op, pc: self.pc });
        }
        let cycles = self.execute(ins);
        Ok(cycles)
    }

    /// The entry sequence shared by NMI and IRQ.
    fn interrupt_entry(&mut self)
        requires
            old(self).wf(),
        ensures
            final(self).wf(),
            final(self)@ == interrupt_push(old(self)@),
    {
        let hi = (self.pc / 256) as u8;
        let lo = (self.pc % 256) as u8;
        self.push(hi);
        self.push(lo);
        let sb = self.pack_status(false);
        self.push(sb);
        self.i = true;
    }
}

} // verus!
