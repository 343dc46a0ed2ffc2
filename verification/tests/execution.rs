//! Instruction execution: addressing quirks, arithmetic flags, cycle costs
//! and the decode fault.

use mos6502::cpu::{new, DecodeFault, CPU};

/// Mount `program` at `0x8000`, point the reset vector there, and reset.
fn boot(program: &[u8]) -> CPU {
    let mut cpu = new();
    cpu.mount_mem(0x8000, program).unwrap();
    cpu.mount_mem(0xFFFC, &[0x00, 0x80]).unwrap();
    cpu.reset();
    assert_eq!(cpu.pc(), 0x8000);
    cpu
}

#[test]
fn reset_vector_loads_pc_and_sets_i() {
    let mut cpu = new();
    cpu.mount_mem(0xFFFC, &[0x00, 0x80]).unwrap();
    cpu.reset();
    assert_eq!(cpu.pc(), 0x8000);
    assert!(cpu.flag_i());
    // Nothing else moved.
    assert_eq!(cpu.a(), 0);
    assert_eq!(cpu.sp(), 0);
    assert!(!cpu.flag_c());
}

#[test]
fn zero_page_x_wraps_within_page_zero() {
    // LDX #$02; LDA $FF,X — the effective address is 0x0001, not 0x0101.
    let mut cpu = boot(&[0xA2, 0x02, 0xB5, 0xFF]);
    cpu.write8(0x0001, 0x77);
    cpu.write8(0x0101, 0x99);
    cpu.step().unwrap();
    cpu.step().unwrap();
    assert_eq!(cpu.a(), 0x77);
}

#[test]
fn indirect_jmp_page_boundary_bug() {
    // JMP ($30FF) with [0x30FF]=0x40, [0x3000]=0x50 and a decoy at 0x3100:
    // the high pointer byte comes from 0x3000, so pc becomes 0x5040.
    let mut cpu = boot(&[0x6C, 0xFF, 0x30]);
    cpu.write8(0x30FF, 0x40);
    cpu.write8(0x3000, 0x50);
    cpu.write8(0x3100, 0x99);
    let cycles = cpu.step().unwrap();
    assert_eq!(cpu.pc(), 0x5040);
    assert_eq!(cycles, 5);
}

#[test]
fn adc_signed_overflow_flags() {
    // LDA #$50; ADC #$50 with C=0: 0xA0, C=0, V=1, N=1, Z=0.
    let mut cpu = boot(&[0xA9, 0x50, 0x69, 0x50]);
    cpu.step().unwrap();
    cpu.step().unwrap();
    assert_eq!(cpu.a(), 0xA0);
    assert!(!cpu.flag_c());
    assert!(cpu.flag_v());
    assert!(cpu.flag_n());
    assert!(!cpu.flag_z());
}

#[test]
fn adc_carry_out() {
    // LDA #$FF; SEC; ADC #$01: 0x01 with carry out.
    let mut cpu = boot(&[0xA9, 0xFF, 0x38, 0x69, 0x01]);
    cpu.step().unwrap();
    cpu.step().unwrap();
    cpu.step().unwrap();
    assert_eq!(cpu.a(), 0x01);
    assert!(cpu.flag_c());
    assert!(!cpu.flag_v());
    assert!(!cpu.flag_z());
}

#[test]
fn adc_decimal_mode() {
    // SED; LDA #$15; ADC #$27 is 15 + 27 = 42 in BCD.
    let mut cpu = boot(&[0xF8, 0xA9, 0x15, 0x69, 0x27]);
    cpu.step().unwrap();
    cpu.step().unwrap();
    cpu.step().unwrap();
    assert_eq!(cpu.a(), 0x42);
    assert!(!cpu.flag_c());
}

#[test]
fn sbc_decimal_mode() {
    // SED; SEC; LDA #$42; SBC #$15 is 42 - 15 = 27 in BCD.
    let mut cpu = boot(&[0xF8, 0x38, 0xA9, 0x42, 0xE9, 0x15]);
    for _ in 0..4 {
        cpu.step().unwrap();
    }
    assert_eq!(cpu.a(), 0x27);
    assert!(cpu.flag_c());
}

#[test]
fn sbc_borrow_flags() {
    // SEC; LDA #$10; SBC #$20: 0xF0 with the carry cleared (borrow).
    let mut cpu = boot(&[0x38, 0xA9, 0x10, 0xE9, 0x20]);
    cpu.step().unwrap();
    cpu.step().unwrap();
    cpu.step().unwrap();
    assert_eq!(cpu.a(), 0xF0);
    assert!(!cpu.flag_c());
    assert!(cpu.flag_n());
}

#[test]
fn branch_cycle_costs() {
    // BEQ not taken: base cycles only.
    let mut cpu = boot(&[0xF0, 0x10]);
    assert_eq!(cpu.step().unwrap(), 2);
    assert_eq!(cpu.pc(), 0x8002);

    // LDA #$00 sets Z; BEQ taken within the page: base + 1.
    let mut cpu = boot(&[0xA9, 0x00, 0xF0, 0x10]);
    cpu.step().unwrap();
    assert_eq!(cpu.step().unwrap(), 3);
    assert_eq!(cpu.pc(), 0x8014);

    // BEQ taken onto another page: base + 2. The branch sits at 0x80F0, the
    // fall-through address is 0x80F2 and the target 0x8112.
    let mut cpu = new();
    cpu.mount_mem(0x80EE, &[0xA9, 0x00, 0xF0, 0x20]).unwrap();
    cpu.mount_mem(0xFFFC, &[0xEE, 0x80]).unwrap();
    cpu.reset();
    cpu.step().unwrap();
    assert_eq!(cpu.step().unwrap(), 4);
    assert_eq!(cpu.pc(), 0x8112);
}

#[test]
fn branch_backwards() {
    // LDA #$00; BEQ -4 lands two bytes before the program.
    let mut cpu = boot(&[0xA9, 0x00, 0xF0, 0xFC]);
    cpu.step().unwrap();
    cpu.step().unwrap();
    assert_eq!(cpu.pc(), 0x8000);
}

#[test]
fn absolute_x_page_cross_costs_one_more() {
    // LDX #$20; LDA $80F0,X crosses into 0x8110: 4 + 1 cycles.
    let mut cpu = boot(&[0xA2, 0x20, 0xBD, 0xF0, 0x80]);
    cpu.write8(0x8110, 0x5A);
    cpu.step().unwrap();
    assert_eq!(cpu.step().unwrap(), 5);
    assert_eq!(cpu.a(), 0x5A);

    // LDX #$20; LDA $8000,X stays on the page: 4 cycles.
    let mut cpu = boot(&[0xA2, 0x20, 0xBD, 0x00, 0x80]);
    cpu.write8(0x8020, 0x6B);
    cpu.step().unwrap();
    assert_eq!(cpu.step().unwrap(), 4);
    assert_eq!(cpu.a(), 0x6B);
}

#[test]
fn indirect_y_pointer_wraps_in_zero_page() {
    // LDY #$01; LDA ($FF),Y: the pointer low byte sits at 0x00FF and the
    // high byte wraps to 0x0000.
    let mut cpu = boot(&[0xA0, 0x01, 0xB1, 0xFF]);
    cpu.write8(0x00FF, 0x00);
    cpu.write8(0x0000, 0x90);
    cpu.write8(0x9001, 0x5A);
    cpu.step().unwrap();
    cpu.step().unwrap();
    assert_eq!(cpu.a(), 0x5A);
}

#[test]
fn decode_fault_leaves_state_unchanged() {
    // Opcode 0x02 names no instruction: a fault, and nothing moves.
    let mut cpu = boot(&[0x02]);
    let before_pc = cpu.pc();
    let before_sp = cpu.sp();
    let before_a = cpu.a();
    let r = cpu.step();
    assert_eq!(r, Err(DecodeFault { opcode: 0x02, pc: 0x8000 }));
    assert_eq!(cpu.pc(), before_pc);
    assert_eq!(cpu.sp(), before_sp);
    assert_eq!(cpu.a(), before_a);
}

#[test]
fn loads_set_n_and_z() {
    let mut cpu = boot(&[0xA9, 0x00, 0xA9, 0x80, 0xA9, 0x01]);
    cpu.step().unwrap();
    assert!(cpu.flag_z());
    assert!(!cpu.flag_n());
    cpu.step().unwrap();
    assert!(!cpu.flag_z());
    assert!(cpu.flag_n());
    cpu.step().unwrap();
    assert!(!cpu.flag_z());
    assert!(!cpu.flag_n());
}

#[test]
fn store_and_rmw_memory() {
    // LDA #$41; STA $10; INC $10; DEC $10; DEC $10.
    let mut cpu = boot(&[0xA9, 0x41, 0x85, 0x10, 0xE6, 0x10, 0xC6, 0x10, 0xC6, 0x10]);
    cpu.step().unwrap();
    assert_eq!(cpu.step().unwrap(), 3);
    assert_eq!(cpu.read_mem(0x0010), 0x41);
    cpu.step().unwrap();
    assert_eq!(cpu.read_mem(0x0010), 0x42);
    cpu.step().unwrap();
    cpu.step().unwrap();
    assert_eq!(cpu.read_mem(0x0010), 0x40);
}

#[test]
fn inc_wraps_to_zero_and_sets_z() {
    let mut cpu = boot(&[0xE6, 0x10]);
    cpu.write8(0x0010, 0xFF);
    cpu.step().unwrap();
    assert_eq!(cpu.read_mem(0x0010), 0x00);
    assert!(cpu.flag_z());
    assert!(!cpu.flag_n());
}

#[test]
fn compare_sets_carry_zero_negative() {
    // LDA #$20; CMP #$10: C set, Z clear, N clear.
    let mut cpu = boot(&[0xA9, 0x20, 0xC9, 0x10, 0xC9, 0x20, 0xC9, 0x30]);
    cpu.step().unwrap();
    cpu.step().unwrap();
    assert!(cpu.flag_c());
    assert!(!cpu.flag_z());
    assert!(!cpu.flag_n());
    // CMP #$20: equal.
    cpu.step().unwrap();
    assert!(cpu.flag_c());
    assert!(cpu.flag_z());
    // CMP #$30: less.
    cpu.step().unwrap();
    assert!(!cpu.flag_c());
    assert!(!cpu.flag_z());
    assert!(cpu.flag_n());
}

#[test]
fn shifts_and_rotates() {
    // LDA #$81; ASL A: 0x02, carry out.
    let mut cpu = boot(&[0xA9, 0x81, 0x0A]);
    cpu.step().unwrap();
    cpu.step().unwrap();
    assert_eq!(cpu.a(), 0x02);
    assert!(cpu.flag_c());

    // SEC; LDA #$02; ROR A: the old carry enters bit 7.
    let mut cpu = boot(&[0x38, 0xA9, 0x02, 0x6A]);
    cpu.step().unwrap();
    cpu.step().unwrap();
    cpu.step().unwrap();
    assert_eq!(cpu.a(), 0x81);
    assert!(!cpu.flag_c());
    assert!(cpu.flag_n());

    // SEC; LDA #$80; ROL A: carry out of bit 7, old carry into bit 0.
    let mut cpu = boot(&[0x38, 0xA9, 0x80, 0x2A]);
    cpu.step().unwrap();
    cpu.step().unwrap();
    cpu.step().unwrap();
    assert_eq!(cpu.a(), 0x01);
    assert!(cpu.flag_c());

    // LDA #$03; LSR A: 0x01 with carry from bit 0.
    let mut cpu = boot(&[0xA9, 0x03, 0x4A]);
    cpu.step().unwrap();
    cpu.step().unwrap();
    assert_eq!(cpu.a(), 0x01);
    assert!(cpu.flag_c());
}

#[test]
fn logical_ops_and_bit() {
    // LDA #$F0; AND #$3C; ORA #$01; EOR #$FF.
    let mut cpu = boot(&[0xA9, 0xF0, 0x29, 0x3C, 0x09, 0x01, 0x49, 0xFF]);
    cpu.step().unwrap();
    cpu.step().unwrap();
    assert_eq!(cpu.a(), 0x30);
    cpu.step().unwrap();
    assert_eq!(cpu.a(), 0x31);
    cpu.step().unwrap();
    assert_eq!(cpu.a(), 0xCE);

    // BIT $10 against 0xC0: N and V from the memory byte, Z from the mask.
    let mut cpu = boot(&[0xA9, 0x01, 0x24, 0x10]);
    cpu.write8(0x0010, 0xC0);
    cpu.step().unwrap();
    cpu.step().unwrap();
    assert!(cpu.flag_n());
    assert!(cpu.flag_v());
    assert!(cpu.flag_z());
    assert_eq!(cpu.a(), 0x01);
}

#[test]
fn transfers_and_registers() {
    // LDA #$7F; TAX; INX; TXA; TAY; DEY.
    let mut cpu = boot(&[0xA9, 0x7F, 0xAA, 0xE8, 0x8A, 0xA8, 0x88]);
    cpu.step().unwrap();
    cpu.step().unwrap();
    assert_eq!(cpu.x(), 0x7F);
    cpu.step().unwrap();
    assert_eq!(cpu.x(), 0x80);
    assert!(cpu.flag_n());
    cpu.step().unwrap();
    assert_eq!(cpu.a(), 0x80);
    cpu.step().unwrap();
    assert_eq!(cpu.y(), 0x80);
    cpu.step().unwrap();
    assert_eq!(cpu.y(), 0x7F);
}

#[test]
fn register_wraparound_inx_dex() {
    // LDX #$FF; INX wraps to zero.
    let mut cpu = boot(&[0xA2, 0xFF, 0xE8, 0xCA]);
    cpu.step().unwrap();
    cpu.step().unwrap();
    assert_eq!(cpu.x(), 0x00);
    assert!(cpu.flag_z());
    // DEX wraps back to 0xFF.
    cpu.step().unwrap();
    assert_eq!(cpu.x(), 0xFF);
    assert!(cpu.flag_n());
}

#[test]
fn base_cycle_costs_match_the_table() {
    let mut cpu = boot(&[0xA9, 0x01, 0xA5, 0x10, 0x8D, 0x00, 0x20, 0xEA]);
    assert_eq!(cpu.step().unwrap(), 2); // LDA immediate
    assert_eq!(cpu.step().unwrap(), 3); // LDA zero page
    assert_eq!(cpu.step().unwrap(), 4); // STA absolute
    assert_eq!(cpu.step().unwrap(), 2); // NOP
}

#[test]
fn fetch_reads_the_opcode_byte() {
    let cpu = boot(&[0xA9, 0x01]);
    assert_eq!(cpu.fetch(), 0xA9);
}

#[test]
fn indexed_indirect_x_resolves_through_zero_page() {
    // LDX #$04; LDA ($20,X): the pointer sits at 0x24/0x25.
    let mut cpu = boot(&[0xA2, 0x04, 0xA1, 0x20]);
    cpu.write8(0x0024, 0x00);
    cpu.write8(0x0025, 0x91);
    cpu.write8(0x9100, 0x3D);
    cpu.step().unwrap();
    assert_eq!(cpu.step().unwrap(), 6);
    assert_eq!(cpu.a(), 0x3D);
}

#[test]
fn absolute_y_addressing() {
    // LDY #$05; LDA $9000,Y.
    let mut cpu = boot(&[0xA0, 0x05, 0xB9, 0x00, 0x90]);
    cpu.write8(0x9005, 0x66);
    cpu.step().unwrap();
    assert_eq!(cpu.step().unwrap(), 4);
    assert_eq!(cpu.a(), 0x66);
}

#[test]
fn sbc_signed_overflow() {
    // SEC; LDA #$50; SBC #$B0: 0x50 - 0xB0 = 0xA0 with signed overflow.
    let mut cpu = boot(&[0x38, 0xA9, 0x50, 0xE9, 0xB0]);
    cpu.step().unwrap();
    cpu.step().unwrap();
    cpu.step().unwrap();
    assert_eq!(cpu.a(), 0xA0);
    assert!(cpu.flag_v());
    assert!(!cpu.flag_c());
    assert!(cpu.flag_n());
}

#[test]
fn adc_decimal_carry_out() {
    // SED; SEC; LDA #$58; ADC #$46: 58 + 46 + 1 = 105 in BCD, so 0x05 with
    // the carry set.
    let mut cpu = boot(&[0xF8, 0x38, 0xA9, 0x58, 0x69, 0x46]);
    for _ in 0..4 {
        cpu.step().unwrap();
    }
    assert_eq!(cpu.a(), 0x05);
    assert!(cpu.flag_c());
}

#[test]
fn asl_on_a_memory_operand() {
    // ASL $10 shifts in place and leaves the accumulator alone.
    let mut cpu = boot(&[0x06, 0x10]);
    cpu.write8(0x0010, 0xC1);
    assert_eq!(cpu.step().unwrap(), 5);
    assert_eq!(cpu.read_mem(0x0010), 0x82);
    assert!(cpu.flag_c());
    assert!(cpu.flag_n());
    assert_eq!(cpu.a(), 0);
}

#[test]
fn jmp_absolute() {
    let mut cpu = boot(&[0x4C, 0x34, 0x12]);
    assert_eq!(cpu.step().unwrap(), 3);
    assert_eq!(cpu.pc(), 0x1234);
}

#[test]
fn decode_then_execute() {
    // The public fetch / decode / execute path, one stage at a time.
    let mut cpu = boot(&[0xA9, 0x2A]);
    let op = cpu.fetch();
    let ins = mos6502::table::decode(op);
    let cycles = cpu.execute(ins);
    assert_eq!(cycles, 2);
    assert_eq!(cpu.a(), 0x2A);
    assert_eq!(cpu.pc(), 0x8002);
}

#[test]
fn cpx_and_cpy() {
    // LDX #$10; CPX #$10; LDY #$20; CPY #$30.
    let mut cpu = boot(&[0xA2, 0x10, 0xE0, 0x10, 0xA0, 0x20, 0xC0, 0x30]);
    cpu.step().unwrap();
    cpu.step().unwrap();
    assert!(cpu.flag_z());
    assert!(cpu.flag_c());
    cpu.step().unwrap();
    cpu.step().unwrap();
    assert!(!cpu.flag_c());
    assert!(!cpu.flag_z());
}
