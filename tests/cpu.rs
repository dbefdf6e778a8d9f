use chip8::cpu::CPU;
use chip8::fault::Fault;

fn machine(program: &[u8]) -> CPU {
    let mut cpu = CPU::new();
    cpu.load_program(program);
    cpu
}

#[test]
fn new_machine_holds_font_and_starts_at_program() {
    let cpu = CPU::new();
    assert_eq!(cpu.get_program_counter(), 0x200);
    assert_eq!(cpu.read_memory(0x50), 0xF0);
    assert_eq!(cpu.read_memory(0x50 + 5), 0x20);
    assert_eq!(cpu.read_memory(0x50 + 79), 0x80);
    assert_eq!(cpu.read_memory(0x4F), 0);
    assert_eq!(cpu.read_memory(0xA0), 0);
    assert_eq!(cpu.get_address_register(), 0);
    assert!(!cpu.is_waiting_for_key());
}

#[test]
fn program_is_loaded_at_0x200() {
    let cpu = machine(&[0x61, 0x2A]);
    assert_eq!(cpu.read_memory(0x200), 0x61);
    assert_eq!(cpu.read_memory(0x201), 0x2A);
    assert_eq!(cpu.read_memory(0x202), 0);
}

#[test]
fn step_fetches_decodes_and_executes() {
    let mut cpu = machine(&[0x61, 0x2A, 0x71, 0x01]);
    assert_eq!(cpu.step(0), Ok(()));
    assert_eq!(cpu.get_register(1), 0x2A);
    assert_eq!(cpu.get_program_counter(), 0x202);
    assert_eq!(cpu.step(0), Ok(()));
    assert_eq!(cpu.get_register(1), 0x2B);
    assert_eq!(cpu.get_program_counter(), 0x204);
}

#[test]
fn unknown_opcode_faults_without_changes() {
    let mut cpu = machine(&[0x50, 0x01]);
    assert_eq!(cpu.step(0), Err(Fault::UnknownOpcode { word: 0x5001 }));
    assert_eq!(cpu.get_program_counter(), 0x200);
}

#[test]
fn fetch_at_top_of_memory_faults() {
    let mut cpu = machine(&[]);
    cpu.set_program_counter(0xFFF);
    assert_eq!(cpu.step(0), Err(Fault::MemoryOutOfBounds { address: 0xFFF }));
    cpu.set_program_counter(0xFFE);
    cpu.write_memory(0xFFE, 0x60);
    cpu.write_memory(0xFFF, 0x07);
    assert_eq!(cpu.step(0), Ok(()));
    assert_eq!(cpu.get_register(0), 7);
}

#[test]
fn call_and_return() {
    // 0x200: call 0x300; 0x300: return
    let mut cpu = machine(&[0x23, 0x00]);
    cpu.write_memory(0x300, 0x00);
    cpu.write_memory(0x301, 0xEE);
    assert_eq!(cpu.step(0), Ok(()));
    assert_eq!(cpu.get_program_counter(), 0x300);
    assert_eq!(cpu.step(0), Ok(()));
    assert_eq!(cpu.get_program_counter(), 0x202);
}

#[test]
fn return_on_empty_stack_changes_nothing() {
    let mut cpu = machine(&[0x00, 0xEE]);
    assert_eq!(cpu.step(0), Ok(()));
    assert_eq!(cpu.get_program_counter(), 0x202);
    assert_eq!(cpu.pop_stack(), None);
}

#[test]
fn thirteenth_nested_call_overflows() {
    // 0x200: call 0x200, forever
    let mut cpu = machine(&[0x22, 0x00]);
    for _ in 0..12 {
        assert_eq!(cpu.step(0), Ok(()));
    }
    assert_eq!(cpu.step(0), Err(Fault::StackOverflow));
    assert_eq!(cpu.get_program_counter(), 0x200);
    assert_eq!(cpu.pop_stack(), Some(0x202));
}

#[test]
fn legacy_routine_call_faults() {
    let mut cpu = machine(&[0x01, 0x23]);
    assert_eq!(cpu.step(0), Err(Fault::UnsupportedRoutine));
}

#[test]
fn wait_for_key_stalls_until_release() {
    // 0x200: V3 = key; 0x202: V4 = 1
    let mut cpu = machine(&[0xF3, 0x0A, 0x64, 0x01]);
    cpu.set_delay_timer(3);
    for _ in 0..5 {
        assert_eq!(cpu.step(0), Ok(()));
        assert_eq!(cpu.get_program_counter(), 0x200);
        cpu.update_timers();
    }
    assert_eq!(cpu.get_delay_timer(), 0);
    assert!(cpu.is_waiting_for_key());
    cpu.handle_key_press(0xC);
    assert_eq!(cpu.step(0), Ok(()));
    assert_eq!(cpu.get_program_counter(), 0x200);
    cpu.handle_key_release(0xC);
    assert_eq!(cpu.step(0), Ok(()));
    assert_eq!(cpu.get_program_counter(), 0x202);
    assert_eq!(cpu.get_register(3), 0xC);
    assert!(!cpu.is_waiting_for_key());
    assert_eq!(cpu.step(0), Ok(()));
    assert_eq!(cpu.get_register(4), 1);
}

#[test]
fn random_instruction_through_step() {
    let mut cpu = machine(&[0xC2, 0xF0]);
    assert_eq!(cpu.step(0x5A), Ok(()));
    assert_eq!(cpu.get_register(2), 0x50);
}

#[test]
fn tick_runs_one_instruction() {
    let mut cpu = machine(&[0xC2, 0x00, 0x63, 0x09]);
    assert_eq!(cpu.tick(), Ok(()));
    assert_eq!(cpu.get_register(2), 0);
    assert_eq!(cpu.tick(), Ok(()));
    assert_eq!(cpu.get_register(3), 9);
    assert_eq!(cpu.get_program_counter(), 0x204);
}

#[test]
fn draw_and_render_through_the_cpu() {
    // I = glyph 0; draw 5 rows at (V0, V0) = (0, 0); clear screen
    let mut cpu = machine(&[0xA0, 0x50, 0xD0, 0x05, 0x00, 0xE0]);
    assert_eq!(cpu.step(0), Ok(()));
    assert_eq!(cpu.step(0), Ok(()));
    assert_eq!(cpu.get_register(0xF), 0);
    let mut frame = vec![0u8; 8192];
    cpu.render_to_buffer(&mut frame);
    assert_eq!(frame[1], 255);
    assert_eq!(frame[4 * 4 + 1], 0);
    assert_eq!(cpu.step(0), Ok(()));
    cpu.render_to_buffer(&mut frame);
    assert_eq!(frame[1], 240);
    assert!(!cpu.draw_sprite(0, 0, 0));
}
