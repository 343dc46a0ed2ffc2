//! Memory, mounting and construction behaviour.

use mos6502::cpu::{new, MountError, CPU};
use mos6502::machine::MEM_SIZE;

#[test]
fn test_read_and_write() {
    let mut cpu: CPU = new();
    let test_data: [u8; 2] = [0xde, 0xad];
    let _ = cpu.mount_mem(0x1000, &test_data);
    let test_byte1 = cpu.read_mem(0x1000);
    let test_byte2 = cpu.read_mem(0x1001);
    assert_eq!(test_byte1.clone(), 0xde);
    assert_eq!(test_byte2.clone(), 0xad);
}

#[test]
fn test_initialized_memory() {
    let cpu: CPU = new();
    let test_byte1 = cpu.read_mem(0);
    let test_byte2 = cpu.read_mem((MEM_SIZE - 1) as u16);
    assert_eq!(test_byte1.clone(), 0);
    assert_eq!(test_byte2.clone(), 0);
}

#[test]
fn fresh_cpu_is_all_zero() {
    let cpu = new();
    assert_eq!(cpu.pc(), 0);
    assert_eq!(cpu.sp(), 0);
    assert_eq!(cpu.a(), 0);
    assert_eq!(cpu.x(), 0);
    assert_eq!(cpu.y(), 0);
    assert!(!cpu.flag_n());
    assert!(!cpu.flag_v());
    assert!(!cpu.flag_b());
    assert!(!cpu.flag_d());
    assert!(!cpu.flag_i());
    assert!(!cpu.flag_z());
    assert!(!cpu.flag_c());
    // Every byte zero, the last one included.
    assert_eq!(cpu.read_mem(0xFFFF), 0);
    assert_eq!(cpu.read_mem(0x8000), 0);
}

#[test]
fn write8_read8_round_trip() {
    let mut cpu = new();
    cpu.write8(0x0000, 0x12);
    cpu.write8(0x1234, 0xAB);
    cpu.write8(0xFFFF, 0xCD);
    assert_eq!(cpu.read8(0x0000), 0x12);
    assert_eq!(cpu.read8(0x1234), 0xAB);
    assert_eq!(cpu.read8(0xFFFF), 0xCD);
}

#[test]
fn write16_read16_round_trip() {
    let mut cpu = new();
    cpu.write16(0x2000, 0xBEEF);
    assert_eq!(cpu.read16(0x2000), 0xBEEF);
    assert_eq!(cpu.read8(0x2000), 0xEF);
    assert_eq!(cpu.read8(0x2001), 0xBE);
}

#[test]
fn read16_wraps_at_top_of_memory() {
    let mut cpu = new();
    cpu.write8(0xFFFF, 0x34);
    cpu.write8(0x0000, 0x12);
    assert_eq!(cpu.read16(0xFFFF), 0x1234);
}

#[test]
fn mount_too_long_is_rejected_and_memory_untouched() {
    let mut cpu = new();
    let image: [u8; 4] = [1, 2, 3, 4];
    let r = cpu.mount_mem(0xFFFE, &image);
    assert_eq!(r, Err(MountError { addr: 0xFFFE, len: 4 }));
    assert_eq!(cpu.read_mem(0xFFFE), 0);
    assert_eq!(cpu.read_mem(0xFFFF), 0);
}

#[test]
fn mount_at_end_exactly_fits() {
    let mut cpu = new();
    let image: [u8; 2] = [0x77, 0x88];
    let r = cpu.mount_mem(0xFFFE, &image);
    assert_eq!(r, Ok(()));
    assert_eq!(cpu.read_mem(0xFFFE), 0x77);
    assert_eq!(cpu.read_mem(0xFFFF), 0x88);
}

#[test]
fn write16_wraps_at_top_of_memory() {
    let mut cpu = new();
    cpu.write16(0xFFFF, 0xABCD);
    assert_eq!(cpu.read_mem(0xFFFF), 0xCD);
    assert_eq!(cpu.read_mem(0x0000), 0xAB);
}
