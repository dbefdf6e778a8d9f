use chip8::cpu::CPU;
use chip8::fault::Fault;
use chip8::opcodes::Opcode;

fn machine(program: &[u8]) -> CPU {
    let mut cpu = CPU::new();
    cpu.load_program(program);
    cpu
}

#[test]
fn every_word_decodes_or_is_unknown() {
    let mut legal = 0u32;
    for w in 0..=u16::MAX {
        match Opcode::from_raw(w) {
            Ok(_) => legal += 1,
            Err(f) => assert_eq!(f, Fault::UnknownOpcode { word: w }),
        }
    }
    // classes 0-4, 6, 7, A-D take all 4096 words; 5 and 9 one in 16;
    // 8 nine in 16; E two in 256; F nine in 256.
    assert_eq!(legal, 11 * 4096 + 2 * 256 + 9 * 256 + 2 * 16 + 9 * 16);
}

#[test]
fn decodes_each_class() {
    assert_eq!(Opcode::from_raw(0x00E0), Ok(Opcode::ClearDisplay {}));
    assert_eq!(Opcode::from_raw(0x00EE), Ok(Opcode::Return {}));
    assert_eq!(Opcode::from_raw(0x0123), Ok(Opcode::CallRoutine));
    assert_eq!(Opcode::from_raw(0x1ABC), Ok(Opcode::Goto { address: 0xABC }));
    assert_eq!(Opcode::from_raw(0x2ABC), Ok(Opcode::CallSubroutine { address: 0xABC }));
    assert_eq!(Opcode::from_raw(0x3A12), Ok(Opcode::SkipIfEqual { register: 0xA, value: 0x12 }));
    assert_eq!(Opcode::from_raw(0x4A12), Ok(Opcode::SkipIfNotEqual { register: 0xA, value: 0x12 }));
    assert_eq!(Opcode::from_raw(0x5AB0), Ok(Opcode::SkipIfRegistersEqual { reg_x: 0xA, reg_y: 0xB }));
    assert_eq!(Opcode::from_raw(0x6A12), Ok(Opcode::SetRegister { register: 0xA, value: 0x12 }));
    assert_eq!(Opcode::from_raw(0x7A12), Ok(Opcode::AddToRegister { register: 0xA, value: 0x12 }));
    assert_eq!(Opcode::from_raw(0x8AB0), Ok(Opcode::AssignRegister { reg_x: 0xA, reg_y: 0xB }));
    assert_eq!(Opcode::from_raw(0x8AB1), Ok(Opcode::BitwiseOr { reg_x: 0xA, reg_y: 0xB }));
    assert_eq!(Opcode::from_raw(0x8AB2), Ok(Opcode::BitwiseAnd { reg_x: 0xA, reg_y: 0xB }));
    assert_eq!(Opcode::from_raw(0x8AB3), Ok(Opcode::BitwiseXor { reg_x: 0xA, reg_y: 0xB }));
    assert_eq!(Opcode::from_raw(0x8AB4), Ok(Opcode::AddRegisters { reg_x: 0xA, reg_y: 0xB }));
    assert_eq!(Opcode::from_raw(0x8AB5), Ok(Opcode::SubtractRegisters { reg_x: 0xA, reg_y: 0xB }));
    assert_eq!(Opcode::from_raw(0x8AB6), Ok(Opcode::ShiftRight { reg_x: 0xA }));
    assert_eq!(Opcode::from_raw(0x8AB7), Ok(Opcode::SubtractReverse { reg_x: 0xA, reg_y: 0xB }));
    assert_eq!(Opcode::from_raw(0x8ABE), Ok(Opcode::ShiftLeft { reg_x: 0xA }));
    assert_eq!(Opcode::from_raw(0x9AB0), Ok(Opcode::SkipIfRegNotEqual { reg_x: 0xA, reg_y: 0xB }));
    assert_eq!(Opcode::from_raw(0xAABC), Ok(Opcode::SetAddress { address: 0xABC }));
    assert_eq!(Opcode::from_raw(0xBABC), Ok(Opcode::JumpWithOffset { address: 0xABC }));
    assert_eq!(Opcode::from_raw(0xCA12), Ok(Opcode::Random { register: 0xA, value: 0x12 }));
    assert_eq!(Opcode::from_raw(0xDAB5), Ok(Opcode::Draw { reg_x: 0xA, reg_y: 0xB, height: 5 }));
    assert_eq!(Opcode::from_raw(0xEA9E), Ok(Opcode::SkipIfKeyPressed { register: 0xA }));
    assert_eq!(Opcode::from_raw(0xEAA1), Ok(Opcode::SkipIfKeyNotPressed { register: 0xA }));
    assert_eq!(Opcode::from_raw(0xFA07), Ok(Opcode::GetDelayTimer { register: 0xA }));
    assert_eq!(Opcode::from_raw(0xFA0A), Ok(Opcode::WaitForKey { register: 0xA }));
    assert_eq!(Opcode::from_raw(0xFA15), Ok(Opcode::SetDelayTimer { register: 0xA }));
    assert_eq!(Opcode::from_raw(0xFA18), Ok(Opcode::SetSoundTimer { register: 0xA }));
    assert_eq!(Opcode::from_raw(0xFA1E), Ok(Opcode::AddToAddress { register: 0xA }));
    assert_eq!(Opcode::from_raw(0xFA29), Ok(Opcode::SetSpriteAddress { register: 0xA }));
    assert_eq!(Opcode::from_raw(0xFA33), Ok(Opcode::StoreBCD { register: 0xA }));
    assert_eq!(Opcode::from_raw(0xFA55), Ok(Opcode::StoreRegisters { reg_x: 0xA }));
    assert_eq!(Opcode::from_raw(0xFA65), Ok(Opcode::LoadRegisters { reg_x: 0xA }));
}

#[test]
fn illegal_words_are_unknown() {
    for w in [0x5AB1u16, 0x800F, 0x8AB8, 0x9AB1, 0xE000, 0xEA9F, 0xF000, 0xFA66, 0xFFFF] {
        assert_eq!(Opcode::from_raw(w), Err(Fault::UnknownOpcode { word: w }));
    }
}

#[test]
fn add_sets_carry_exactly_on_overflow() {
    for vx in 0..=255u8 {
        for vy in [0u8, 1, 100, 155, 156, 255] {
            let mut cpu = CPU::new();
            cpu.set_register(1, vx);
            cpu.set_register(2, vy);
            assert_eq!(Opcode::AddRegisters { reg_x: 1, reg_y: 2 }.execute(&mut cpu, 0), Ok(()));
            assert_eq!(cpu.get_register(1), ((vx as u16 + vy as u16) % 256) as u8);
            assert_eq!(cpu.get_register(0xF), if vx as u16 + vy as u16 > 255 { 1 } else { 0 });
        }
    }
}

#[test]
fn subtract_sets_flag_when_no_borrow() {
    for vx in 0..=255u8 {
        for vy in [0u8, 1, 100, 200, 255] {
            let mut cpu = CPU::new();
            cpu.set_register(1, vx);
            cpu.set_register(2, vy);
            assert_eq!(Opcode::SubtractRegisters { reg_x: 1, reg_y: 2 }.execute(&mut cpu, 0), Ok(()));
            assert_eq!(cpu.get_register(1), vx.wrapping_sub(vy));
            assert_eq!(cpu.get_register(0xF), if vx >= vy { 1 } else { 0 });
        }
    }
}

#[test]
fn reverse_subtract_sets_flag_when_vy_at_least_vx() {
    let mut cpu = CPU::new();
    cpu.set_register(1, 10);
    cpu.set_register(2, 3);
    Opcode::SubtractReverse { reg_x: 1, reg_y: 2 }.execute(&mut cpu, 0).unwrap();
    assert_eq!(cpu.get_register(1), 249);
    assert_eq!(cpu.get_register(0xF), 0);
    cpu.set_register(1, 3);
    cpu.set_register(2, 3);
    Opcode::SubtractReverse { reg_x: 1, reg_y: 2 }.execute(&mut cpu, 0).unwrap();
    assert_eq!(cpu.get_register(1), 0);
    assert_eq!(cpu.get_register(0xF), 1);
}

#[test]
fn shift_right_keeps_lost_bit() {
    let mut cpu = CPU::new();
    cpu.set_register(4, 0b1011_0011);
    Opcode::ShiftRight { reg_x: 4 }.execute(&mut cpu, 0).unwrap();
    assert_eq!(cpu.get_register(4), 0b0101_1001);
    assert_eq!(cpu.get_register(0xF), 1);
}

#[test]
fn shift_left_keeps_lost_bit() {
    let mut cpu = CPU::new();
    cpu.set_register(4, 0b1011_0011);
    Opcode::ShiftLeft { reg_x: 4 }.execute(&mut cpu, 0).unwrap();
    assert_eq!(cpu.get_register(4), 0b0110_0110);
    assert_eq!(cpu.get_register(0xF), 1);
    Opcode::ShiftLeft { reg_x: 4 }.execute(&mut cpu, 0).unwrap();
    assert_eq!(cpu.get_register(4), 0b1100_1100);
    assert_eq!(cpu.get_register(0xF), 0);
}

#[test]
fn add_to_register_wraps_without_flag() {
    let mut cpu = CPU::new();
    cpu.set_register(0xF, 7);
    cpu.set_register(2, 250);
    Opcode::AddToRegister { register: 2, value: 10 }.execute(&mut cpu, 0).unwrap();
    assert_eq!(cpu.get_register(2), 4);
    assert_eq!(cpu.get_register(0xF), 7);
}

#[test]
fn bitwise_operations() {
    let mut cpu = CPU::new();
    cpu.set_register(1, 0b1100);
    cpu.set_register(2, 0b1010);
    Opcode::BitwiseOr { reg_x: 1, reg_y: 2 }.execute(&mut cpu, 0).unwrap();
    assert_eq!(cpu.get_register(1), 0b1110);
    Opcode::BitwiseAnd { reg_x: 1, reg_y: 2 }.execute(&mut cpu, 0).unwrap();
    assert_eq!(cpu.get_register(1), 0b1010);
    Opcode::BitwiseXor { reg_x: 1, reg_y: 2 }.execute(&mut cpu, 0).unwrap();
    assert_eq!(cpu.get_register(1), 0);
    Opcode::AssignRegister { reg_x: 3, reg_y: 2 }.execute(&mut cpu, 0).unwrap();
    assert_eq!(cpu.get_register(3), 0b1010);
}

#[test]
fn random_masks_the_drawn_byte() {
    let mut cpu = CPU::new();
    Opcode::Random { register: 5, value: 0x0F }.execute(&mut cpu, 0xAB).unwrap();
    assert_eq!(cpu.get_register(5), 0x0B);
}

#[test]
fn store_bcd_writes_three_digits() {
    let mut cpu = CPU::new();
    cpu.set_register(7, 157);
    cpu.set_address_register(0x300);
    Opcode::StoreBCD { register: 7 }.execute(&mut cpu, 0).unwrap();
    assert_eq!(cpu.read_memory(0x300), 1);
    assert_eq!(cpu.read_memory(0x301), 5);
    assert_eq!(cpu.read_memory(0x302), 7);
    assert_eq!(cpu.get_address_register(), 0x300);
}

#[test]
fn store_bcd_past_memory_faults() {
    let mut cpu = CPU::new();
    cpu.set_register(7, 157);
    cpu.set_address_register(0xFFE);
    assert_eq!(Opcode::StoreBCD { register: 7 }.execute(&mut cpu, 0), Err(Fault::MemoryOutOfBounds { address: 0x1000 }));
    assert_eq!(cpu.read_memory(0xFFE), 0);
}

#[test]
fn sprite_address_points_at_glyph() {
    let mut cpu = CPU::new();
    cpu.set_register(3, 0xA);
    Opcode::SetSpriteAddress { register: 3 }.execute(&mut cpu, 0).unwrap();
    assert_eq!(cpu.get_address_register(), 0x50 + 50);
    assert_eq!(cpu.read_memory(0x50 + 50), 0xF0);
    cpu.set_register(3, 0x1A);
    Opcode::SetSpriteAddress { register: 3 }.execute(&mut cpu, 0).unwrap();
    assert_eq!(cpu.get_address_register(), 0x50 + 50);
}

#[test]
fn store_and_load_registers() {
    let mut cpu = CPU::new();
    for r in 0..4u8 {
        cpu.set_register(r, 10 + r);
    }
    cpu.set_address_register(0x400);
    Opcode::StoreRegisters { reg_x: 2 }.execute(&mut cpu, 0).unwrap();
    assert_eq!(cpu.read_memory(0x400), 10);
    assert_eq!(cpu.read_memory(0x402), 12);
    assert_eq!(cpu.read_memory(0x403), 0);
    assert_eq!(cpu.get_address_register(), 0x400);
    cpu.write_memory(0x401, 99);
    cpu.write_memory(0x403, 98);
    Opcode::LoadRegisters { reg_x: 1 }.execute(&mut cpu, 0).unwrap();
    assert_eq!(cpu.get_register(0), 10);
    assert_eq!(cpu.get_register(1), 99);
    assert_eq!(cpu.get_register(2), 12);
    assert_eq!(cpu.get_register(3), 13);
}

#[test]
fn register_range_past_memory_faults() {
    let mut cpu = CPU::new();
    cpu.set_address_register(0xFFE);
    assert_eq!(Opcode::StoreRegisters { reg_x: 2 }.execute(&mut cpu, 0), Err(Fault::MemoryOutOfBounds { address: 0x1000 }));
    assert_eq!(Opcode::LoadRegisters { reg_x: 2 }.execute(&mut cpu, 0), Err(Fault::MemoryOutOfBounds { address: 0x1000 }));
    assert_eq!(Opcode::StoreRegisters { reg_x: 1 }.execute(&mut cpu, 0), Ok(()));
}

#[test]
fn add_to_address_faults_above_twelve_bits() {
    let mut cpu = CPU::new();
    cpu.set_address_register(0xFF0);
    cpu.set_register(1, 0x0F);
    assert_eq!(Opcode::AddToAddress { register: 1 }.execute(&mut cpu, 0), Ok(()));
    assert_eq!(cpu.get_address_register(), 0xFFF);
    assert_eq!(Opcode::AddToAddress { register: 1 }.execute(&mut cpu, 0), Err(Fault::AddressOutOfRange { value: 0x100E }));
    assert_eq!(cpu.get_address_register(), 0xFFF);
}

#[test]
fn legacy_routine_is_unsupported() {
    let mut cpu = CPU::new();
    assert_eq!(Opcode::CallRoutine.execute(&mut cpu, 0), Err(Fault::UnsupportedRoutine));
}

#[test]
fn draw_sets_collision_flag() {
    let mut cpu = CPU::new();
    cpu.set_register(0, 0);
    cpu.set_register(1, 0);
    cpu.set_register(2, 0);
    // glyph 0 at the font base: top row 0xF0
    cpu.set_address_register(0x50);
    Opcode::Draw { reg_x: 1, reg_y: 2, height: 5 }.execute(&mut cpu, 0).unwrap();
    assert_eq!(cpu.get_register(0xF), 0);
    Opcode::Draw { reg_x: 1, reg_y: 2, height: 1 }.execute(&mut cpu, 0).unwrap();
    assert_eq!(cpu.get_register(0xF), 1);
    cpu.set_address_register(0xFFE);
    assert_eq!(Opcode::Draw { reg_x: 1, reg_y: 2, height: 3 }.execute(&mut cpu, 0), Err(Fault::MemoryOutOfBounds { address: 0x1000 }));
    assert_eq!(Opcode::Draw { reg_x: 1, reg_y: 2, height: 2 }.execute(&mut cpu, 0), Ok(()));
}

#[test]
fn skips_and_jumps() {
    let mut cpu = machine(&[]);
    cpu.set_register(1, 5);
    Opcode::SkipIfEqual { register: 1, value: 5 }.execute(&mut cpu, 0).unwrap();
    assert_eq!(cpu.get_program_counter(), 0x202);
    Opcode::SkipIfNotEqual { register: 1, value: 5 }.execute(&mut cpu, 0).unwrap();
    assert_eq!(cpu.get_program_counter(), 0x202);
    Opcode::SkipIfRegistersEqual { reg_x: 1, reg_y: 2 }.execute(&mut cpu, 0).unwrap();
    assert_eq!(cpu.get_program_counter(), 0x202);
    Opcode::SkipIfRegNotEqual { reg_x: 1, reg_y: 2 }.execute(&mut cpu, 0).unwrap();
    assert_eq!(cpu.get_program_counter(), 0x204);
    cpu.set_register(0, 0x10);
    Opcode::JumpWithOffset { address: 0x300 }.execute(&mut cpu, 0).unwrap();
    assert_eq!(cpu.get_program_counter(), 0x310);
    Opcode::Goto { address: 0x456 }.execute(&mut cpu, 0).unwrap();
    assert_eq!(cpu.get_program_counter(), 0x456);
}

#[test]
fn key_skips_use_low_nibble() {
    let mut cpu = machine(&[]);
    cpu.set_register(1, 0x17);
    cpu.handle_key_press(7);
    Opcode::SkipIfKeyPressed { register: 1 }.execute(&mut cpu, 0).unwrap();
    assert_eq!(cpu.get_program_counter(), 0x202);
    Opcode::SkipIfKeyNotPressed { register: 1 }.execute(&mut cpu, 0).unwrap();
    assert_eq!(cpu.get_program_counter(), 0x202);
    cpu.handle_key_release(7);
    Opcode::SkipIfKeyNotPressed { register: 1 }.execute(&mut cpu, 0).unwrap();
    assert_eq!(cpu.get_program_counter(), 0x204);
}

#[test]
fn timers_through_instructions() {
    let mut cpu = CPU::new();
    cpu.set_register(2, 5);
    Opcode::SetDelayTimer { register: 2 }.execute(&mut cpu, 0).unwrap();
    Opcode::SetSoundTimer { register: 2 }.execute(&mut cpu, 0).unwrap();
    cpu.update_timers();
    Opcode::GetDelayTimer { register: 3 }.execute(&mut cpu, 0).unwrap();
    assert_eq!(cpu.get_register(3), 4);
    assert_eq!(cpu.get_sound_timer(), 4);
}
