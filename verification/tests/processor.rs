use chip8_core::fault::Fault;
use chip8_core::processor::Processor;

fn loaded(program: &[u8]) -> Processor {
    let mut processor = Processor::new();
    processor.load(program).unwrap();
    processor
}

fn run(processor: &mut Processor, steps: usize) {
    for _ in 0..steps {
        processor.tick_with(0).unwrap();
    }
}

fn memory_of(processor: &Processor) -> Vec<u8> {
    (0..4096u16).map(|addr| processor.memory_byte(addr).unwrap()).collect()
}

fn registers_of(processor: &Processor) -> Vec<u8> {
    (0..16).map(|x| processor.register(x)).collect()
}

fn keys_of(processor: &Processor) -> Vec<bool> {
    (0..16u8).map(|key| processor.key_is_down(key)).collect()
}

fn lit_cells(processor: &Processor) -> Vec<usize> {
    let display = processor.get_display();
    (0..display.len()).filter(|&k| display[k]).collect()
}

const FONT: [u8; 80] = [
    0xF0, 0x90, 0x90, 0x90, 0xF0, 0x20, 0x60, 0x20, 0x20, 0x70, 0xF0, 0x10, 0xF0, 0x80, 0xF0, 0xF0,
    0x10, 0xF0, 0x10, 0xF0, 0x90, 0x90, 0xF0, 0x10, 0x10, 0xF0, 0x80, 0xF0, 0x10, 0xF0, 0xF0, 0x80,
    0xF0, 0x90, 0xF0, 0xF0, 0x10, 0x20, 0x40, 0x40, 0xF0, 0x90, 0xF0, 0x90, 0xF0, 0xF0, 0x90, 0xF0,
    0x10, 0xF0, 0xF0, 0x90, 0xF0, 0x90, 0x90, 0xE0, 0x90, 0xE0, 0x90, 0xE0, 0xF0, 0x80, 0x80, 0x80,
    0xF0, 0xE0, 0x90, 0x90, 0x90, 0xE0, 0xF0, 0x80, 0xF0, 0x80, 0xF0, 0xF0, 0x80, 0xF0, 0x80, 0x80,
];

#[test]
fn new_processor_is_in_power_on_state() {
    let processor = Processor::new();
    assert_eq!(processor.pc(), 0x200);
    assert_eq!(processor.index_register(), 0);
    assert_eq!(processor.stack_depth(), 0);
    assert_eq!(processor.delay_timer(), 0);
    assert_eq!(processor.sound_timer(), 0);
    assert!(!processor.get_sound());
    assert_eq!(registers_of(&processor), vec![0u8; 16]);
    assert_eq!(keys_of(&processor), vec![false; 16]);
    assert_eq!(processor.get_display().len(), 64 * 32);
    assert!(lit_cells(&processor).is_empty());
    let memory = memory_of(&processor);
    assert_eq!(&memory[..80], &FONT[..]);
    assert!(memory[80..].iter().all(|&byte| byte == 0));
}

#[test]
fn reset_gives_the_state_of_a_new_processor() {
    let mut processor = loaded(&[
        0x61, 0x07, // V1 = 7
        0xA0, 0x00, // I = 0
        0xD1, 0x15, // draw glyph 0 at (7, 7)
        0xF1, 0x15, // dt = 7
        0xF1, 0x18, // st = 7
        0x22, 0x0C, // call 0x20C
        0xA3, 0x00, // I = 0x300
        0xF1, 0x55, // store V0, V1 at 0x300
    ]);
    run(&mut processor, 8);
    processor.keypress(3, true);
    processor.tick_timers();
    assert_ne!(processor.stack_depth(), 0);
    assert!(!lit_cells(&processor).is_empty());

    processor.reset();

    let fresh = Processor::new();
    assert_eq!(processor.pc(), fresh.pc());
    assert_eq!(memory_of(&processor), memory_of(&fresh));
    assert_eq!(registers_of(&processor), registers_of(&fresh));
    assert_eq!(processor.index_register(), fresh.index_register());
    assert_eq!(processor.stack_depth(), fresh.stack_depth());
    assert_eq!(processor.delay_timer(), fresh.delay_timer());
    assert_eq!(processor.sound_timer(), fresh.sound_timer());
    assert_eq!(processor.get_sound(), fresh.get_sound());
    assert_eq!(processor.get_display(), fresh.get_display());
    assert_eq!(keys_of(&processor), keys_of(&fresh));
}

#[test]
fn reset_restores_an_overwritten_font() {
    let mut processor = loaded(&[0x60, 0xAB, 0xA0, 0x00, 0xF0, 0x55]);
    run(&mut processor, 3);
    assert_eq!(processor.memory_byte(0), Ok(0xAB));
    processor.reset();
    assert_eq!(processor.memory_byte(0), Ok(0xF0));
}

#[test]
fn load_places_the_program_at_0x200() {
    let processor = loaded(&[0x12, 0x34, 0x56]);
    assert_eq!(processor.memory_byte(0x1FF), Ok(0));
    assert_eq!(processor.memory_byte(0x200), Ok(0x12));
    assert_eq!(processor.memory_byte(0x201), Ok(0x34));
    assert_eq!(processor.memory_byte(0x202), Ok(0x56));
    assert_eq!(processor.memory_byte(0x203), Ok(0));
    assert_eq!(&memory_of(&processor)[..80], &FONT[..]);
}

#[test]
fn load_accepts_a_program_that_fills_memory() {
    let program = vec![0x5Au8; 4096 - 512];
    let mut processor = Processor::new();
    assert_eq!(processor.load(&program), Ok(()));
    assert_eq!(processor.memory_byte(0x200), Ok(0x5A));
    assert_eq!(processor.memory_byte(0xFFF), Ok(0x5A));
    assert_eq!(processor.memory_byte(0x1FF), Ok(0));
}

#[test]
fn load_rejects_a_program_larger_than_memory() {
    let program = vec![0x5Au8; 4096 - 512 + 1];
    let mut processor = Processor::new();
    let before = memory_of(&processor);
    assert_eq!(processor.load(&program), Err(Fault::ProgramTooLarge));
    assert_eq!(memory_of(&processor), before);
    assert_eq!(processor.pc(), 0x200);
}

#[test]
fn load_of_an_empty_program_changes_nothing() {
    let mut processor = Processor::new();
    let before = memory_of(&processor);
    assert_eq!(processor.load(&[]), Ok(()));
    assert_eq!(memory_of(&processor), before);
}

#[test]
fn a_second_load_keeps_the_bytes_behind_the_shorter_program() {
    let mut processor = loaded(&[1, 2, 3, 4]);
    processor.load(&[9, 9]).unwrap();
    assert_eq!(&memory_of(&processor)[0x200..0x205], &[9, 9, 3, 4, 0]);
}

#[test]
fn memory_byte_outside_memory_is_out_of_range() {
    let processor = Processor::new();
    assert_eq!(processor.memory_byte(4095), Ok(0));
    assert_eq!(processor.memory_byte(4096), Err(Fault::AddressOutOfRange));
    assert_eq!(processor.memory_byte(0xFFFF), Err(Fault::AddressOutOfRange));
}

#[test]
fn tick_advances_the_program_counter_by_two() {
    let mut processor = loaded(&[0x00, 0x00, 0x00, 0x00]);
    assert_eq!(processor.tick(), Ok(()));
    assert_eq!(processor.pc(), 0x202);
    assert_eq!(processor.tick(), Ok(()));
    assert_eq!(processor.pc(), 0x204);
}

#[test]
fn fetch_reads_a_big_endian_word() {
    let mut processor = loaded(&[0xA1, 0x23]);
    assert_eq!(processor.fetch(), Ok(0xA123));
    assert_eq!(processor.pc(), 0x202);
}

#[test]
fn fetch_past_the_end_of_memory_is_out_of_range() {
    let mut processor = loaded(&[0x1F, 0xFF]);
    run(&mut processor, 1);
    assert_eq!(processor.pc(), 0xFFF);
    assert_eq!(processor.fetch(), Err(Fault::AddressOutOfRange));
    assert_eq!(processor.pc(), 0xFFF);
    assert_eq!(processor.tick(), Err(Fault::AddressOutOfRange));
    assert_eq!(processor.tick_with(7), Err(Fault::AddressOutOfRange));
    assert_eq!(processor.pc(), 0xFFF);
}

#[test]
fn the_last_word_of_memory_can_be_fetched() {
    let mut program = vec![0u8; 4096 - 512];
    program[0] = 0x1F;
    program[1] = 0xFE;
    program[0xFFE - 0x200] = 0x6A;
    program[0xFFF - 0x200] = 0x11;
    let mut processor = loaded(&program);
    run(&mut processor, 2);
    assert_eq!(processor.register(0xA), 0x11);
    assert_eq!(processor.pc(), 0x1000);
    assert_eq!(processor.tick(), Err(Fault::AddressOutOfRange));
}

#[test]
fn an_odd_jump_target_is_fetched_from() {
    let mut processor = loaded(&[0x12, 0x03, 0x00, 0x6B, 0x22]);
    run(&mut processor, 2);
    assert_eq!(processor.register(0xB), 0x22);
    assert_eq!(processor.pc(), 0x205);
}

#[test]
fn unimplemented_opcode_reports_word_and_address_and_changes_nothing() {
    let mut processor = loaded(&[0x6A, 0x01, 0x5A, 0xB1]);
    run(&mut processor, 1);
    let memory = memory_of(&processor);
    let registers = registers_of(&processor);
    let fault = Fault::UnimplementedOpcode { opcode: 0x5AB1, pc: 0x202 };
    assert_eq!(processor.tick(), Err(fault));
    assert_eq!(processor.pc(), 0x202);
    assert_eq!(memory_of(&processor), memory);
    assert_eq!(registers_of(&processor), registers);
    assert_eq!(processor.tick_with(9), Err(fault));
    assert_eq!(processor.pc(), 0x202);
}

#[test]
fn every_word_outside_the_instruction_set_is_unimplemented() {
    for opcode in [
        0x0001u16, 0x00E1, 0x00FE, 0x0100, 0x0FFF, 0x5001, 0x500F, 0x8008, 0x800D, 0x800F, 0x9001,
        0xE000, 0xE09F, 0xE1A0, 0xF000, 0xF008, 0xF00B, 0xF016, 0xF034, 0xF056, 0xF066, 0xF0FF,
    ] {
        let mut processor = loaded(&[(opcode >> 8) as u8, (opcode & 0xFF) as u8]);
        assert_eq!(processor.tick(), Err(Fault::UnimplementedOpcode { opcode, pc: 0x200 }));
        assert_eq!(processor.pc(), 0x200);
    }
}

#[test]
fn timers_count_down_to_zero_and_stay_there() {
    let mut processor = loaded(&[0x60, 0x05, 0xF0, 0x15]);
    run(&mut processor, 2);
    assert_eq!(processor.delay_timer(), 5);
    for expected in [4u8, 3, 2, 1, 0] {
        processor.tick_timers();
        assert_eq!(processor.delay_timer(), expected);
    }
    processor.tick_timers();
    assert_eq!(processor.delay_timer(), 0);
}

#[test]
fn sound_is_active_only_on_the_tick_that_reaches_zero() {
    let mut processor = loaded(&[0x60, 0x01, 0xF0, 0x18]);
    run(&mut processor, 2);
    assert_eq!(processor.sound_timer(), 1);
    assert!(!processor.get_sound());
    processor.tick_timers();
    assert!(processor.get_sound());
    assert_eq!(processor.sound_timer(), 0);
    processor.tick_timers();
    assert!(!processor.get_sound());
    assert_eq!(processor.sound_timer(), 0);
}

#[test]
fn sound_is_not_active_while_the_sound_timer_is_above_one() {
    let mut processor = loaded(&[0x60, 0x03, 0xF0, 0x18]);
    run(&mut processor, 2);
    processor.tick_timers();
    assert!(!processor.get_sound());
    assert_eq!(processor.sound_timer(), 2);
    processor.tick_timers();
    assert!(!processor.get_sound());
    assert_eq!(processor.sound_timer(), 1);
    processor.tick_timers();
    assert!(processor.get_sound());
    assert_eq!(processor.sound_timer(), 0);
}

#[test]
fn timers_run_independently_of_each_other() {
    let mut processor = loaded(&[0x60, 0x02, 0xF0, 0x15, 0x60, 0x09, 0xF0, 0x18]);
    run(&mut processor, 4);
    processor.tick_timers();
    processor.tick_timers();
    processor.tick_timers();
    assert_eq!(processor.delay_timer(), 0);
    assert_eq!(processor.sound_timer(), 6);
}

#[test]
fn keypress_sets_and_clears_one_key() {
    let mut processor = Processor::new();
    processor.keypress(0xF, true);
    processor.keypress(0, true);
    assert!(processor.key_is_down(0xF));
    assert!(processor.key_is_down(0));
    assert!(!processor.key_is_down(7));
    processor.keypress(0xF, false);
    assert!(!processor.key_is_down(0xF));
    assert!(processor.key_is_down(0));
    assert!(!processor.key_is_down(16));
    assert!(!processor.key_is_down(255));
}

#[test]
fn random_byte_is_masked() {
    for _ in 0..200 {
        let mut processor = loaded(&[0x63, 0xFF, 0xC3, 0x0F, 0xC4, 0x00]);
        assert_eq!(processor.tick(), Ok(()));
        assert_eq!(processor.tick(), Ok(()));
        assert_eq!(processor.tick(), Ok(()));
        assert!(processor.register(3) <= 0x0F);
        assert_eq!(processor.register(4), 0);
        assert_eq!(processor.pc(), 0x206);
    }
}

#[test]
fn random_bytes_vary() {
    let mut seen = std::collections::HashSet::new();
    for _ in 0..400 {
        let mut processor = loaded(&[0xC0, 0xFF]);
        processor.tick().unwrap();
        seen.insert(processor.register(0));
    }
    assert!(seen.len() > 1);
}

#[test]
fn tick_with_masks_the_given_byte() {
    let mut processor = loaded(&[0xC5, 0x3C]);
    assert_eq!(processor.tick_with(0xA7), Ok(()));
    assert_eq!(processor.register(5), 0xA7 & 0x3C);
}

#[test]
fn tick_with_ignores_the_byte_for_other_instructions() {
    let mut first = loaded(&[0x65, 0x3C, 0x75, 0x01]);
    let mut second = loaded(&[0x65, 0x3C, 0x75, 0x01]);
    first.tick_with(0).unwrap();
    first.tick_with(0).unwrap();
    second.tick_with(0xFF).unwrap();
    second.tick_with(0x55).unwrap();
    assert_eq!(registers_of(&first), registers_of(&second));
    assert_eq!(first.pc(), second.pc());
}

#[test]
fn pixel_reads_the_display_by_column_and_row() {
    let mut processor = loaded(&[0x60, 0x3F, 0x61, 0x1F, 0xA0, 0x05, 0xD0, 0x11]);
    run(&mut processor, 4);
    // Glyph 1 starts with the row 0x20: one pixel in sprite column 2, which
    // wraps from display column 63 to column 1 of row 31.
    assert!(processor.pixel(1, 31));
    assert!(!processor.pixel(63, 31));
    assert!(!processor.pixel(1, 0));
    assert_eq!(lit_cells(&processor), vec![31 * 64 + 1]);
}
