use c8_core::{Emulator, Fault, FONTSET, MEMORY_SIZE, SCREEN_HEIGHT, SCREEN_WIDTH, START_ADDRESS};

#[test]
fn new_machine_is_zeroed_with_font_loaded() {
    let emu = Emulator::new();
    assert_eq!(emu.program_counter(), 0x200);
    assert_eq!(emu.program_counter(), START_ADDRESS);
    assert_eq!(emu.index_register(), 0);
    assert_eq!(emu.registers(), [0u8; 16]);
    assert_eq!(emu.stack_depth(), 0);
    assert_eq!(emu.delay_timer(), 0);
    assert_eq!(emu.sound_timer(), 0);
    assert_eq!(emu.memory().len(), MEMORY_SIZE);
    assert_eq!(&emu.memory()[..80], &FONTSET[..]);
    assert!(emu.memory()[80..].iter().all(|byte| *byte == 0));
    assert_eq!(emu.display().len(), SCREEN_WIDTH * SCREEN_HEIGHT);
    assert!(emu.display().iter().all(|pixel| !*pixel));
}

#[test]
fn font_holds_the_glyphs_of_zero_and_f() {
    assert_eq!(&FONTSET[0..5], &[0xF0, 0x90, 0x90, 0x90, 0xF0]);
    assert_eq!(&FONTSET[75..80], &[0xF0, 0x80, 0xF0, 0x80, 0x80]);
}

#[test]
fn load_rom_copies_verbatim_from_the_start_address() {
    let mut emu = Emulator::new();
    let rom = [0xA2, 0x00, 0x00, 0xE0, 0x12, 0x34, 0xFF];
    assert_eq!(emu.load_rom(&rom), Ok(()));
    assert_eq!(&emu.memory()[0x200..0x207], &rom[..]);
    assert_eq!(emu.memory()[0x207], 0);
    assert_eq!(&emu.memory()[..80], &FONTSET[..]);
    assert!(emu.memory()[80..0x200].iter().all(|byte| *byte == 0));
    assert_eq!(emu.program_counter(), 0x200);
}

#[test]
fn load_rom_accepts_an_image_that_fills_memory() {
    let mut emu = Emulator::new();
    let rom = vec![0x5A; 4096 - 0x200];
    assert_eq!(emu.load_rom(&rom), Ok(()));
    assert!(emu.memory()[0x200..].iter().all(|byte| *byte == 0x5A));
    assert_eq!(emu.memory()[0x1FF], 0);
}

#[test]
fn load_rom_accepts_an_empty_image() {
    let mut emu = Emulator::new();
    assert_eq!(emu.load_rom(&[]), Ok(()));
    assert!(emu.memory()[0x200..].iter().all(|byte| *byte == 0));
}

#[test]
fn load_rom_refuses_an_oversized_image_and_writes_nothing() {
    let mut emu = Emulator::new();
    let rom = vec![0x5A; 4096 - 0x200 + 1];
    assert_eq!(emu.load_rom(&rom), Err(Fault::ProgramTooLarge));
    assert!(emu.memory()[0x200..].iter().all(|byte| *byte == 0));
    assert_eq!(&emu.memory()[..80], &FONTSET[..]);
}

#[test]
fn load_rom_keeps_what_lies_beyond_the_image() {
    let mut emu = Emulator::new();
    assert_eq!(emu.load_rom(&[1, 2, 3, 4]), Ok(()));
    assert_eq!(emu.load_rom(&[9, 8]), Ok(()));
    assert_eq!(&emu.memory()[0x200..0x204], &[9, 8, 3, 4]);
}

#[test]
fn reset_discards_program_and_state() {
    let mut emu = Emulator::new();
    // V3 = 0x42, I = glyph 1, delay = V3, call 0x208, (0x208) draw
    let rom = [0x63, 0x42, 0xA0, 0x05, 0xF3, 0x15, 0x22, 0x08, 0xD0, 0x05];
    assert_eq!(emu.load_rom(&rom), Ok(()));
    emu.keypress(7, true);
    for _ in 0..5 {
        assert_eq!(emu.step(), Ok(()));
    }
    assert_eq!(emu.stack_depth(), 1);
    assert!(emu.display().iter().any(|pixel| *pixel));
    emu.reset();
    let fresh = Emulator::new();
    assert_eq!(emu.program_counter(), 0x200);
    assert_eq!(emu.index_register(), 0);
    assert_eq!(emu.registers(), [0u8; 16]);
    assert_eq!(emu.stack_depth(), 0);
    assert_eq!(emu.delay_timer(), 0);
    assert_eq!(emu.sound_timer(), 0);
    assert_eq!(emu.memory(), fresh.memory());
    assert!(emu.display().iter().all(|pixel| !*pixel));
    // the key is released again: a wait for a key makes no progress
    assert_eq!(emu.load_rom(&[0xF0, 0x0A]), Ok(()));
    assert_eq!(emu.step(), Ok(()));
    assert_eq!(emu.program_counter(), 0x200);
}

#[test]
fn timers_count_down_and_stop_at_zero() {
    let mut emu = Emulator::new();
    // V0 = 2, delay = V0, V1 = 1, sound = V1
    assert_eq!(emu.load_rom(&[0x60, 0x02, 0xF0, 0x15, 0x61, 0x01, 0xF1, 0x18]), Ok(()));
    for _ in 0..4 {
        assert_eq!(emu.step(), Ok(()));
    }
    assert_eq!((emu.delay_timer(), emu.sound_timer()), (2, 1));
    emu.timers_step();
    assert_eq!((emu.delay_timer(), emu.sound_timer()), (1, 0));
    emu.timers_step();
    assert_eq!((emu.delay_timer(), emu.sound_timer()), (0, 0));
    emu.timers_step();
    assert_eq!((emu.delay_timer(), emu.sound_timer()), (0, 0));
}

#[test]
fn timers_do_not_move_with_instructions() {
    let mut emu = Emulator::new();
    // V0 = 9, delay = V0, then three loads
    assert_eq!(
        emu.load_rom(&[0x60, 0x09, 0xF0, 0x15, 0x61, 0x01, 0x62, 0x02, 0x63, 0x03]),
        Ok(())
    );
    for _ in 0..5 {
        assert_eq!(emu.step(), Ok(()));
    }
    assert_eq!(emu.delay_timer(), 9);
}

#[test]
fn snapshot_is_untouched_by_later_steps() {
    let mut emu = Emulator::new();
    // V0 = 1, V1 = 2, I = glyph 1, V0 += V1, draw, jump to self
    let rom = [0x60, 0x01, 0x61, 0x02, 0xA0, 0x05, 0x80, 0x14, 0xD0, 0x15, 0x12, 0x0A];
    assert_eq!(emu.load_rom(&rom), Ok(()));
    assert_eq!(emu.step(), Ok(()));
    assert_eq!(emu.step(), Ok(()));
    let saved = emu.snapshot();
    let registers = emu.registers();
    let pc = emu.program_counter();
    let index = emu.index_register();
    let screen = emu.display().to_vec();
    for _ in 0..6 {
        assert_eq!(emu.step(), Ok(()));
    }
    emu.keypress(3, true);
    emu.timers_step();
    assert_ne!(emu.registers(), registers);
    assert_ne!(emu.program_counter(), pc);
    assert_ne!(emu.display(), &screen[..]);
    // the copy did not move
    assert_eq!(saved.registers(), registers);
    assert_eq!(saved.program_counter(), pc);
    assert_eq!(saved.index_register(), index);
    assert_eq!(saved.display(), &screen[..]);
    emu.restore(&saved);
    assert_eq!(emu.registers(), registers);
    assert_eq!(emu.program_counter(), pc);
    assert_eq!(emu.index_register(), index);
    assert_eq!(emu.display(), &screen[..]);
    assert_eq!(emu.memory(), saved.memory());
    assert_eq!(emu.stack_depth(), saved.stack_depth());
    // and runs on from there as the machine it was copied from did
    assert_eq!(emu.step(), Ok(()));
    assert_eq!(emu.index_register(), 5);
}

#[test]
fn restore_replaces_the_whole_state() {
    let mut first = Emulator::new();
    assert_eq!(first.load_rom(&[0x6A, 0x77, 0x22, 0x06, 0x00, 0x00, 0xFA, 0x18]), Ok(()));
    for _ in 0..3 {
        assert_eq!(first.step(), Ok(()));
    }
    let mut second = Emulator::new();
    second.restore(&first);
    assert_eq!(second.registers()[0xA], 0x77);
    assert_eq!(second.program_counter(), first.program_counter());
    assert_eq!(second.stack_depth(), 1);
    assert_eq!(second.sound_timer(), 0x77);
    assert_eq!(second.memory(), first.memory());
}

#[test]
fn two_instruction_program_sets_index_and_clears_screen() {
    let mut emu = Emulator::new();
    assert_eq!(emu.load_rom(&[0xA2, 0x00, 0x00, 0xE0]), Ok(()));
    assert_eq!(emu.step(), Ok(()));
    assert_eq!(emu.step(), Ok(()));
    assert_eq!(emu.index_register(), 0x200);
    assert!(emu.display().iter().all(|pixel| !*pixel));
    assert_eq!(emu.program_counter(), 0x204);
}

#[test]
fn state_string_lists_the_registers_in_hexadecimal() {
    let mut emu = Emulator::new();
    assert_eq!(
        emu.state_string(),
        "[ V00: 00 V01: 00 V02: 00 V03: 00 ]\n\
         [ V04: 00 V05: 00 V06: 00 V07: 00 ]\n\
         [ V08: 00 V09: 00 V10: 00 V11: 00 ]\n\
         [ V12: 00 V13: 00 V14: 00 V15: 00 ]"
    );
    let rom = [
        0x60, 0x01, 0x61, 0x0A, 0x62, 0xFF, 0x63, 0x10, 0x69, 0x9C, 0x6A, 0xAB, 0x6D, 0x7E, 0x6F,
        0xF0,
    ];
    assert_eq!(emu.load_rom(&rom), Ok(()));
    for _ in 0..8 {
        assert_eq!(emu.step(), Ok(()));
    }
    assert_eq!(
        emu.state_string(),
        "[ V00: 01 V01: 0A V02: FF V03: 10 ]\n\
         [ V04: 00 V05: 00 V06: 00 V07: 00 ]\n\
         [ V08: 00 V09: 9C V10: AB V11: 00 ]\n\
         [ V12: 00 V13: 7E V14: 00 V15: F0 ]"
    );
    let registers = emu.registers();
    let expected = format!(
        "[ V00: {:02X} V01: {:02X} V02: {:02X} V03: {:02X} ]\n\
         [ V04: {:02X} V05: {:02X} V06: {:02X} V07: {:02X} ]\n\
         [ V08: {:02X} V09: {:02X} V10: {:02X} V11: {:02X} ]\n\
         [ V12: {:02X} V13: {:02X} V14: {:02X} V15: {:02X} ]",
        registers[0],
        registers[1],
        registers[2],
        registers[3],
        registers[4],
        registers[5],
        registers[6],
        registers[7],
        registers[8],
        registers[9],
        registers[10],
        registers[11],
        registers[12],
        registers[13],
        registers[14],
        registers[15],
    );
    assert_eq!(emu.state_string(), expected);
}
