use chip8_core::Cpu;
use chip8_core::ChipError;

#[test]
fn fetch_is_big_endian() {
    let mut cpu = Cpu::default();
    let mut memory: Vec<u8> = vec![0x12, 0x34];
    let word = cpu.fetch(&mut memory).unwrap();
    assert_eq!(word, 0x1234);
    assert_eq!(cpu.pc, 2);
}

#[test]
fn fetch_at_start_of_rom() {
    let mut cpu = Cpu::default();
    let mut memory: Vec<u8> = vec![0xA2, 0xF0];
    let word = cpu.fetch(&mut memory).unwrap();
    assert_eq!(word, 0xA2F0);
    assert_eq!(cpu.pc, 2);
}

#[test]
fn fetch_with_one_byte_left() {
    let mut cpu = Cpu::default();
    let mut memory: Vec<u8> = vec![0x00; 64];
    cpu.pc = memory.len() - 1;
    let e = cpu.fetch(&mut memory);
    assert_eq!(e, Err(ChipError::AddressOutOfBounds { address: 64, limit: 64 }));
    assert_eq!(cpu.pc, 63);
}

#[test]
fn fetch_past_the_end() {
    let mut cpu = Cpu::default();
    let mut memory: Vec<u8> = vec![0x12, 0x34];
    cpu.pc = 100;
    let e = cpu.fetch(&mut memory);
    assert_eq!(e, Err(ChipError::AddressOutOfBounds { address: 101, limit: 2 }));
    assert_eq!(cpu.pc, 100);
}

#[test]
fn fetch_from_empty_memory() {
    let mut cpu = Cpu::default();
    let mut memory: Vec<u8> = Vec::new();
    let e = cpu.fetch(&mut memory);
    assert_eq!(e, Err(ChipError::AddressOutOfBounds { address: 1, limit: 0 }));
    assert_eq!(cpu.pc, 0);
}

#[test]
fn fetch_advances_through_memory() {
    let mut cpu = Cpu::default();
    let mut memory: Vec<u8> = vec![0x00, 0xE0, 0xA2, 0xF0, 0x60, 0x07];
    assert_eq!(cpu.fetch(&mut memory).unwrap(), 0x00E0);
    assert_eq!(cpu.fetch(&mut memory).unwrap(), 0xA2F0);
    assert_eq!(cpu.fetch(&mut memory).unwrap(), 0x6007);
    assert_eq!(cpu.pc, 6);
    assert!(cpu.fetch(&mut memory).is_err());
}

#[test]
fn reset_zeroes_every_field() {
    let mut cpu = Cpu::default();
    cpu.v[0] = 0xFF;
    cpu.v[15] = 0x11;
    cpu.i = 0x0123;
    cpu.pc = 0x0456;
    cpu.push(0x200).unwrap();
    cpu.push(0x300).unwrap();
    cpu.timer_delay = 9;
    cpu.timer_sound = 4;
    cpu.keypad[7] = true;

    cpu.reset();

    let fresh = Cpu::default();
    assert_eq!(cpu.v, fresh.v);
    assert_eq!(cpu.i, fresh.i);
    assert_eq!(cpu.pc, fresh.pc);
    assert_eq!(cpu.sp, fresh.sp);
    assert_eq!(cpu.timer_delay, fresh.timer_delay);
    assert_eq!(cpu.timer_sound, fresh.timer_sound);
    assert_eq!(cpu.stack, fresh.stack);
    assert_eq!(cpu.keypad, fresh.keypad);
}
