//! Stack behaviour, subroutines, software and hardware interrupts, and the
//! status byte.

use mos6502::cpu::{new, CPU};

/// Mount `program` at `0x8000`, point the reset vector there, and reset.
fn boot(program: &[u8]) -> CPU {
    let mut cpu = new();
    cpu.mount_mem(0x8000, program).unwrap();
    cpu.mount_mem(0xFFFC, &[0x00, 0x80]).unwrap();
    cpu.reset();
    cpu
}

#[test]
fn sixteen_pushes_wrap_the_stack_pointer() {
    // LDX #$01; TXS puts the stack pointer at 0x01; sixteen pushes then
    // wrap it through 0x00 and 0xFF down to 0xF1, with no error anywhere.
    let mut cpu = boot(&[0xA2, 0x01, 0x9A]);
    cpu.step().unwrap();
    cpu.step().unwrap();
    assert_eq!(cpu.sp(), 0x01);
    for k in 0..16u8 {
        cpu.push(k);
    }
    assert_eq!(cpu.sp(), 0xF1);
    // The two bytes pushed while wrapping landed at 0x0101 and 0x0100, the
    // third at the top of the stack page.
    assert_eq!(cpu.read_mem(0x0101), 0);
    assert_eq!(cpu.read_mem(0x0100), 1);
    assert_eq!(cpu.read_mem(0x01FF), 2);
}

#[test]
fn push_then_pull_returns_the_byte() {
    let mut cpu = new();
    cpu.push(0xAB);
    assert_eq!(cpu.sp(), 0xFF);
    assert_eq!(cpu.pull(), 0xAB);
    assert_eq!(cpu.sp(), 0x00);
}

#[test]
fn pha_pla_round_trip() {
    // LDA #$3C; PHA; LDA #$00; PLA.
    let mut cpu = boot(&[0xA9, 0x3C, 0x48, 0xA9, 0x00, 0x68]);
    for _ in 0..4 {
        cpu.step().unwrap();
    }
    assert_eq!(cpu.a(), 0x3C);
    assert!(!cpu.flag_z());
}

#[test]
fn jsr_pushes_return_address_and_rts_comes_back() {
    // JSR $8005 from 0x8000; the subroutine is a lone RTS.
    let mut cpu = boot(&[0x20, 0x05, 0x80, 0xEA, 0xEA, 0x60]);
    assert_eq!(cpu.step().unwrap(), 6);
    assert_eq!(cpu.pc(), 0x8005);
    // JSR pushes pc + 2, high byte first.
    assert_eq!(cpu.read_mem(0x0100), 0x80);
    assert_eq!(cpu.read_mem(0x01FF), 0x02);
    assert_eq!(cpu.sp(), 0xFE);
    // RTS pulls and adds one.
    assert_eq!(cpu.step().unwrap(), 6);
    assert_eq!(cpu.pc(), 0x8003);
    assert_eq!(cpu.sp(), 0x00);
}

#[test]
fn php_pushes_status_with_break_and_bit5_set() {
    // SEC; PHP: the pushed byte holds C, I (set by reset), bit 5 and B.
    let mut cpu = boot(&[0x38, 0x08]);
    cpu.step().unwrap();
    assert_eq!(cpu.step().unwrap(), 3);
    assert_eq!(cpu.read_mem(0x0100), 0x35);
    // The stored break flag itself is untouched.
    assert!(!cpu.flag_b());
}

#[test]
fn plp_restores_every_flag() {
    // LDA #$C3; PHA; PLP: N, V, Z, C set; B, D, I clear.
    let mut cpu = boot(&[0xA9, 0xC3, 0x48, 0x28]);
    cpu.step().unwrap();
    cpu.step().unwrap();
    cpu.step().unwrap();
    assert!(cpu.flag_n());
    assert!(cpu.flag_v());
    assert!(!cpu.flag_b());
    assert!(!cpu.flag_d());
    assert!(!cpu.flag_i());
    assert!(cpu.flag_z());
    assert!(cpu.flag_c());
}

#[test]
fn status_accessor_composes_the_byte() {
    let mut cpu = boot(&[0x38, 0xA9, 0x00]);
    cpu.step().unwrap();
    cpu.step().unwrap();
    // I from reset, Z from the load, C from SEC, and the fixed bit 5.
    assert_eq!(cpu.status(), 0x27);
}

#[test]
fn brk_pushes_and_jumps_through_irq_vector_and_rti_returns() {
    let mut cpu = boot(&[0x00]);
    cpu.mount_mem(0xFFFE, &[0x00, 0x90]).unwrap();
    cpu.mount_mem(0x9000, &[0x40]).unwrap();
    assert_eq!(cpu.step().unwrap(), 7);
    assert_eq!(cpu.pc(), 0x9000);
    assert!(cpu.flag_i());
    // BRK pushed pc + 2 and the status byte with B set.
    assert_eq!(cpu.read_mem(0x0100), 0x80);
    assert_eq!(cpu.read_mem(0x01FF), 0x02);
    assert_eq!(cpu.read_mem(0x01FE) & 0x10, 0x10);
    assert_eq!(cpu.sp(), 0xFD);
    // RTI pulls the status and the return address, without the RTS +1.
    assert_eq!(cpu.step().unwrap(), 6);
    assert_eq!(cpu.pc(), 0x8002);
}

#[test]
fn nmi_is_always_honoured() {
    let mut cpu = boot(&[0xEA]);
    cpu.mount_mem(0xFFFA, &[0x00, 0xA0]).unwrap();
    cpu.nmi();
    assert_eq!(cpu.pc(), 0xA000);
    assert!(cpu.flag_i());
    // The pushed status has the break bit clear and bit 5 set.
    assert_eq!(cpu.read_mem(0x01FE) & 0x30, 0x20);
}

#[test]
fn irq_is_masked_by_the_interrupt_flag() {
    // Reset sets I, so an IRQ right after reset is ignored.
    let mut cpu = boot(&[0x58, 0xEA]);
    cpu.mount_mem(0xFFFE, &[0x00, 0xA0]).unwrap();
    assert!(!cpu.irq());
    assert_eq!(cpu.pc(), 0x8000);
    // CLI clears I; the same IRQ is then serviced.
    cpu.step().unwrap();
    assert!(cpu.irq());
    assert_eq!(cpu.pc(), 0xA000);
    assert!(cpu.flag_i());
}
