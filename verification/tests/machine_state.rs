use chip8::{Chip8, Fault, SCREEN_HEIGHT, SCREEN_WIDTH};

const FONT: [u8; 80] = [
    0xF0, 0x90, 0x90, 0x90, 0xF0, 0x20, 0x60, 0x20, 0x20, 0x70, 0xF0, 0x10, 0xF0, 0x80, 0xF0, 0xF0,
    0x10, 0xF0, 0x10, 0xF0, 0x90, 0x90, 0xF0, 0x10, 0x10, 0xF0, 0x80, 0xF0, 0x10, 0xF0, 0xF0, 0x80,
    0xF0, 0x90, 0xF0, 0xF0, 0x10, 0x20, 0x40, 0x40, 0xF0, 0x90, 0xF0, 0x90, 0xF0, 0xF0, 0x90, 0xF0,
    0x10, 0xF0, 0xF0, 0x90, 0xF0, 0x90, 0x90, 0xE0, 0x90, 0xE0, 0x90, 0xE0, 0xF0, 0x80, 0x80, 0x80,
    0xF0, 0xE0, 0x90, 0x90, 0x90, 0xE0, 0xF0, 0x80, 0xF0, 0x80, 0xF0, 0xF0, 0x80, 0xF0, 0x80, 0x80,
];

fn loaded(program: &[u8]) -> Chip8 {
    let mut chip8 = Chip8::new();
    chip8.load(program);
    chip8
}

fn run(chip8: &mut Chip8, ticks: usize) {
    for _ in 0..ticks {
        assert_eq!(chip8.pending_fault(), None);
        chip8.tick();
    }
}

#[test]
fn screen_is_64_by_32() {
    assert_eq!(SCREEN_WIDTH, 64);
    assert_eq!(SCREEN_HEIGHT, 32);
    assert_eq!(Chip8::new().get_display().len(), SCREEN_WIDTH * SCREEN_HEIGHT);
}

#[test]
fn new_machine_is_zeroed_and_starts_at_0x200() {
    let chip8 = Chip8::new();
    assert_eq!(chip8.program_counter(), 0x200);
    assert_eq!(chip8.i_register(), 0);
    assert_eq!(chip8.delay_timer(), 0);
    assert_eq!(chip8.sound_timer(), 0);
    assert_eq!(chip8.stack_depth(), 0);
    for x in 0..16 {
        assert_eq!(chip8.v_register(x), 0);
    }
    assert!(chip8.get_display().iter().all(|&pixel| !pixel));
}

#[test]
fn new_machine_holds_the_font_in_low_memory() {
    let chip8 = Chip8::new();
    for (addr, &byte) in FONT.iter().enumerate() {
        assert_eq!(chip8.read_memory(addr), byte, "font byte {}", addr);
    }
    for addr in 80..4096 {
        assert_eq!(chip8.read_memory(addr), 0, "byte {}", addr);
    }
}

#[test]
fn glyph_of_a_digit_starts_at_five_times_the_digit() {
    let chip8 = Chip8::new();
    // The glyph of 7 is F0 10 20 40 40.
    assert_eq!(chip8.read_memory(7 * 5), 0xF0);
    assert_eq!(chip8.read_memory(7 * 5 + 1), 0x10);
    assert_eq!(chip8.read_memory(7 * 5 + 2), 0x20);
    assert_eq!(chip8.read_memory(7 * 5 + 3), 0x40);
    assert_eq!(chip8.read_memory(7 * 5 + 4), 0x40);
}

#[test]
fn load_copies_the_program_to_0x200() {
    let chip8 = loaded(&[0x12, 0x34, 0x56, 0x78, 0x9A]);
    assert_eq!(chip8.read_memory(0x1FF), 0);
    assert_eq!(chip8.read_memory(0x200), 0x12);
    assert_eq!(chip8.read_memory(0x201), 0x34);
    assert_eq!(chip8.read_memory(0x202), 0x56);
    assert_eq!(chip8.read_memory(0x203), 0x78);
    assert_eq!(chip8.read_memory(0x204), 0x9A);
    assert_eq!(chip8.read_memory(0x205), 0);
    assert_eq!(chip8.program_counter(), 0x200);
}

#[test]
fn load_leaves_the_font_alone() {
    let chip8 = loaded(&[0xFF; 64]);
    for (addr, &byte) in FONT.iter().enumerate() {
        assert_eq!(chip8.read_memory(addr), byte);
    }
}

#[test]
fn load_of_nothing_changes_nothing() {
    let chip8 = loaded(&[]);
    for addr in 0x200..4096 {
        assert_eq!(chip8.read_memory(addr), 0);
    }
}

#[test]
fn load_takes_a_program_that_fills_memory() {
    let mut program = vec![0u8; 4096 - 0x200];
    program[0] = 0xAB;
    let last = program.len() - 1;
    program[last] = 0xCD;
    let chip8 = loaded(&program);
    assert_eq!(chip8.read_memory(0x200), 0xAB);
    assert_eq!(chip8.read_memory(4095), 0xCD);
}

#[test]
fn second_load_overwrites_the_first() {
    let mut chip8 = loaded(&[1, 2, 3, 4]);
    chip8.load(&[9, 8]);
    assert_eq!(chip8.read_memory(0x200), 9);
    assert_eq!(chip8.read_memory(0x201), 8);
    assert_eq!(chip8.read_memory(0x202), 3);
    assert_eq!(chip8.read_memory(0x203), 4);
}

#[test]
fn set_register_then_nop_end_to_end() {
    let mut chip8 = loaded(&[0x6A, 0x05, 0x00, 0x00]);
    chip8.tick();
    chip8.tick();
    assert_eq!(chip8.v_register(10), 5);
    assert_eq!(chip8.program_counter(), 0x204);
}

#[test]
fn jump_sets_the_program_counter_to_0x300() {
    let mut chip8 = loaded(&[0x13, 0x00]);
    chip8.tick();
    assert_eq!(chip8.program_counter(), 0x300);
}

#[test]
fn jump_does_not_depend_on_where_it_stands() {
    // Jump to 0x20A first, and from there to 0x300.
    let mut chip8 = loaded(&[0x12, 0x0A, 0, 0, 0, 0, 0, 0, 0, 0, 0x13, 0x00]);
    chip8.tick();
    assert_eq!(chip8.program_counter(), 0x20A);
    chip8.tick();
    assert_eq!(chip8.program_counter(), 0x300);
}

#[test]
fn timers_at_zero_stay_at_zero() {
    let mut chip8 = Chip8::new();
    chip8.tick_timers();
    assert_eq!(chip8.delay_timer(), 0);
    assert_eq!(chip8.sound_timer(), 0);
    chip8.tick_timers();
    assert_eq!(chip8.delay_timer(), 0);
    assert_eq!(chip8.sound_timer(), 0);
}

#[test]
fn timers_count_down_by_one_and_stop_at_zero() {
    // V0 := 2, delay := V0, V1 := 1, sound := V1
    let mut chip8 = loaded(&[0x60, 0x02, 0xF0, 0x15, 0x61, 0x01, 0xF1, 0x18]);
    run(&mut chip8, 4);
    assert_eq!(chip8.delay_timer(), 2);
    assert_eq!(chip8.sound_timer(), 1);
    chip8.tick_timers();
    assert_eq!(chip8.delay_timer(), 1);
    assert_eq!(chip8.sound_timer(), 0);
    chip8.tick_timers();
    assert_eq!(chip8.delay_timer(), 0);
    assert_eq!(chip8.sound_timer(), 0);
    chip8.tick_timers();
    assert_eq!(chip8.delay_timer(), 0);
    assert_eq!(chip8.sound_timer(), 0);
}

#[test]
fn timer_tick_touches_nothing_else() {
    let mut chip8 = loaded(&[0x6A, 0x05]);
    chip8.tick();
    chip8.tick_timers();
    assert_eq!(chip8.v_register(10), 5);
    assert_eq!(chip8.program_counter(), 0x202);
}

#[test]
fn keypress_is_seen_by_the_skip_instructions() {
    // V0 := 7; skip if key V0 is down; V1 := 1; V2 := 2
    let program = [0x60, 0x07, 0xE0, 0x9E, 0x61, 0x01, 0x62, 0x02];
    let mut chip8 = loaded(&program);
    chip8.keypress(7, true);
    run(&mut chip8, 3);
    assert_eq!(chip8.v_register(1), 0);
    assert_eq!(chip8.v_register(2), 2);

    let mut chip8 = loaded(&program);
    chip8.keypress(7, true);
    chip8.keypress(7, false);
    run(&mut chip8, 3);
    assert_eq!(chip8.v_register(1), 1);
    assert_eq!(chip8.v_register(2), 0);
}

#[test]
fn wait_for_key_stays_put_until_a_key_is_down() {
    let mut chip8 = loaded(&[0xF3, 0x0A, 0x00, 0x00]);
    chip8.tick();
    assert_eq!(chip8.program_counter(), 0x200);
    assert_eq!(chip8.v_register(3), 0);
    chip8.tick();
    assert_eq!(chip8.program_counter(), 0x200);
    chip8.keypress(0xB, true);
    chip8.tick();
    assert_eq!(chip8.program_counter(), 0x202);
    assert_eq!(chip8.v_register(3), 0xB);
}

#[test]
fn wait_for_key_takes_the_lowest_key_that_is_down() {
    let mut chip8 = loaded(&[0xF3, 0x0A]);
    chip8.keypress(0xE, true);
    chip8.keypress(0x4, true);
    chip8.keypress(0x9, true);
    chip8.tick();
    assert_eq!(chip8.v_register(3), 0x4);
    assert_eq!(chip8.program_counter(), 0x202);
}

#[test]
fn wait_for_key_takes_key_zero() {
    let mut chip8 = loaded(&[0x65, 0x55, 0xF5, 0x0A]);
    chip8.keypress(0, true);
    chip8.keypress(0xF, true);
    run(&mut chip8, 2);
    assert_eq!(chip8.v_register(5), 0);
    assert_eq!(chip8.program_counter(), 0x204);
}

#[test]
fn invalid_opcodes_are_reported() {
    for opcode in [0xFFFFu16, 0x0001, 0x00E1, 0x5121, 0x8008, 0x800F, 0x9AB1, 0xE09F, 0xE0A0, 0xF000] {
        let chip8 = loaded(&[(opcode >> 8) as u8, opcode as u8]);
        assert_eq!(chip8.pending_fault(), Some(Fault::InvalidOpcode { opcode }));
    }
}

#[test]
fn return_without_a_call_is_a_stack_underflow() {
    let chip8 = loaded(&[0x00, 0xEE]);
    assert_eq!(chip8.pending_fault(), Some(Fault::StackUnderflow));
}

#[test]
fn seventeenth_nested_call_is_a_stack_overflow() {
    // A subroutine that calls itself.
    let mut chip8 = loaded(&[0x22, 0x00]);
    for depth in 0..16 {
        assert_eq!(chip8.stack_depth(), depth);
        assert_eq!(chip8.pending_fault(), None);
        chip8.tick();
    }
    assert_eq!(chip8.stack_depth(), 16);
    assert_eq!(chip8.pending_fault(), Some(Fault::StackOverflow));
}

#[test]
fn fetch_beyond_memory_is_reported() {
    let mut chip8 = loaded(&[0x1F, 0xFF]);
    chip8.tick();
    assert_eq!(chip8.program_counter(), 0xFFF);
    assert_eq!(chip8.pending_fault(), Some(Fault::FetchOutOfRange));
}

#[test]
fn fetch_of_the_last_word_of_memory_is_in_range() {
    let mut chip8 = loaded(&[0x1F, 0xFE]);
    chip8.tick();
    assert_eq!(chip8.program_counter(), 0xFFE);
    assert_eq!(chip8.pending_fault(), None);
    chip8.tick();
    assert_eq!(chip8.program_counter(), 0x1000);
    assert_eq!(chip8.pending_fault(), Some(Fault::FetchOutOfRange));
}

#[test]
fn key_index_above_15_is_reported() {
    let mut chip8 = loaded(&[0x60, 0x10, 0xE0, 0x9E]);
    chip8.tick();
    assert_eq!(chip8.pending_fault(), Some(Fault::KeyOutOfRange));
    let mut chip8 = loaded(&[0x60, 0x10, 0xE0, 0xA1]);
    chip8.tick();
    assert_eq!(chip8.pending_fault(), Some(Fault::KeyOutOfRange));
    let mut chip8 = loaded(&[0x60, 0x0F, 0xE0, 0xA1]);
    chip8.tick();
    assert_eq!(chip8.pending_fault(), None);
}

#[test]
fn memory_access_past_the_end_is_reported() {
    // I := 0xFFE, then the three digits of V0 would end at 0x1000.
    let mut chip8 = loaded(&[0xAF, 0xFE, 0xF0, 0x33]);
    chip8.tick();
    assert_eq!(chip8.pending_fault(), Some(Fault::MemoryOutOfRange));
    // I := 0xFFD is the last place where they fit.
    let mut chip8 = loaded(&[0xAF, 0xFD, 0xF0, 0x33]);
    chip8.tick();
    assert_eq!(chip8.pending_fault(), None);
    // Storing V0..V2 at 0xFFE would end at 0x1000.
    let mut chip8 = loaded(&[0xAF, 0xFE, 0xF2, 0x55]);
    chip8.tick();
    assert_eq!(chip8.pending_fault(), Some(Fault::MemoryOutOfRange));
    let mut chip8 = loaded(&[0xAF, 0xFE, 0xF2, 0x65]);
    chip8.tick();
    assert_eq!(chip8.pending_fault(), Some(Fault::MemoryOutOfRange));
    let mut chip8 = loaded(&[0xAF, 0xFE, 0xF1, 0x65]);
    chip8.tick();
    assert_eq!(chip8.pending_fault(), None);
    // A sprite of two rows at 0xFFF would read 0x1000.
    let mut chip8 = loaded(&[0xAF, 0xFF, 0xD0, 0x02]);
    chip8.tick();
    assert_eq!(chip8.pending_fault(), Some(Fault::MemoryOutOfRange));
    let mut chip8 = loaded(&[0xAF, 0xFF, 0xD0, 0x01]);
    chip8.tick();
    assert_eq!(chip8.pending_fault(), None);
}

#[test]
fn try_tick_reports_the_fault_and_changes_nothing() {
    let mut chip8 = loaded(&[0x6A, 0x05, 0xFF, 0xFF]);
    assert_eq!(chip8.try_tick(), Ok(()));
    assert_eq!(chip8.v_register(10), 5);
    assert_eq!(chip8.program_counter(), 0x202);
    assert_eq!(chip8.try_tick(), Err(Fault::InvalidOpcode { opcode: 0xFFFF }));
    assert_eq!(chip8.program_counter(), 0x202);
    assert_eq!(chip8.v_register(10), 5);
    assert_eq!(chip8.try_tick(), Err(Fault::InvalidOpcode { opcode: 0xFFFF }));
}

#[test]
fn debug_output_names_the_type() {
    let text = format!("{:?}", Chip8::new());
    assert!(text.starts_with("Chip8"));
}
