use c8_core::{Emulator, Fault};

fn started(program: &[u8], steps: usize) -> Emulator {
    let mut emu = Emulator::new();
    assert_eq!(emu.load_rom(program), Ok(()));
    for _ in 0..steps {
        assert_eq!(emu.step(), Ok(()));
    }
    emu
}

fn lit_pixels(emu: &Emulator) -> Vec<(usize, usize)> {
    let mut lit = Vec::new();
    for (i, pixel) in emu.display().iter().enumerate() {
        if *pixel {
            lit.push((i % 64, i / 64));
        }
    }
    lit
}

#[test]
fn draw_glyph_at_the_origin() {
    // V0 = 0 is the glyph of zero at I = 0: F0 90 90 90 F0
    let emu = started(&[0xD0, 0x05], 1);
    let expected = vec![
        (0, 0), (1, 0), (2, 0), (3, 0),
        (0, 1), (3, 1),
        (0, 2), (3, 2),
        (0, 3), (3, 3),
        (0, 4), (1, 4), (2, 4), (3, 4),
    ];
    assert_eq!(lit_pixels(&emu), expected);
    assert_eq!(emu.registers()[0xF], 0);
    assert_eq!(emu.program_counter(), 0x202);
}

#[test]
fn draw_takes_coordinates_from_registers() {
    // V1 = 10, V2 = 20, I = 0x208, draw one row 0b1000_0001
    let emu = started(&[0x61, 0x0A, 0x62, 0x14, 0xA2, 0x08, 0xD1, 0x21, 0x81], 4);
    assert_eq!(lit_pixels(&emu), vec![(10, 20), (17, 20)]);
}

#[test]
fn draw_same_sprite_twice_erases_it_and_collides() {
    let mut emu = started(&[0x61, 0x05, 0x62, 0x07, 0xA0, 0x0A, 0xD1, 0x25, 0xD1, 0x25], 4);
    assert!(!lit_pixels(&emu).is_empty());
    assert_eq!(emu.registers()[0xF], 0);
    assert_eq!(emu.step(), Ok(()));
    assert!(lit_pixels(&emu).is_empty());
    assert_eq!(emu.registers()[0xF], 1);
}

#[test]
fn draw_twice_over_a_background_restores_the_background() {
    // glyph 0 at (0, 0), then glyph 1 twice at (2, 1)
    let mut emu = started(
        &[0xD0, 0x05, 0x61, 0x02, 0x62, 0x01, 0xA0, 0x05, 0xD1, 0x25, 0xD1, 0x25],
        1,
    );
    let background = emu.display().to_vec();
    for _ in 0..4 {
        assert_eq!(emu.step(), Ok(()));
    }
    assert_ne!(emu.display(), &background[..]);
    assert_eq!(emu.step(), Ok(()));
    assert_eq!(emu.display(), &background[..]);
    assert_eq!(emu.registers()[0xF], 1);
}

#[test]
fn draw_reports_collision_only_when_a_pixel_goes_off() {
    // one row 0xF0 at (0,0), then one row 0x0F at (0,0): no overlap
    let emu = started(&[0xA2, 0x0A, 0xD0, 0x01, 0xA2, 0x0B, 0xD0, 0x01, 0x00, 0x00, 0xF0, 0x0F], 4);
    assert_eq!(emu.registers()[0xF], 0);
    assert_eq!(lit_pixels(&emu).len(), 8);
    // one row 0xF0, then one row 0x18: overlap in column 3
    let emu = started(&[0xA2, 0x0A, 0xD0, 0x01, 0xA2, 0x0B, 0xD0, 0x01, 0x00, 0x00, 0xF0, 0x18], 4);
    assert_eq!(emu.registers()[0xF], 1);
    assert_eq!(lit_pixels(&emu), vec![(0, 0), (1, 0), (2, 0), (4, 0)]);
}

#[test]
fn draw_clears_a_flag_left_by_an_earlier_collision() {
    let emu = started(&[0x6F, 0x01, 0x61, 0x08, 0xD1, 0x15], 3);
    assert_eq!(emu.registers()[0xF], 0);
}

#[test]
fn draw_wraps_around_both_edges() {
    // V1 = 60, V2 = 30, I = 0x208, eight rows of 0xFF
    let mut program = vec![0x61, 60, 0x62, 30, 0xA2, 0x08, 0xD1, 0x28];
    program.extend_from_slice(&[0xFF; 8]);
    let emu = started(&program, 4);
    let screen = emu.display();
    assert_eq!(screen.len(), 64 * 32);
    let mut count = 0;
    for y in 0..32usize {
        for x in 0..64usize {
            let in_columns = x >= 60 || x < 4;
            let in_rows = y >= 30 || y < 6;
            assert_eq!(screen[y * 64 + x], in_columns && in_rows, "pixel ({x}, {y})");
            if screen[y * 64 + x] {
                count += 1;
            }
        }
    }
    assert_eq!(count, 64);
    assert_eq!(emu.registers()[0xF], 0);
}

#[test]
fn draw_reduces_coordinates_beyond_the_screen() {
    // V1 = 64 + 3, V2 = 5 * 32 + 2: the same as (3, 2)
    let emu = started(&[0x61, 67, 0x62, 162, 0xA2, 0x08, 0xD1, 0x21, 0x80], 4);
    assert_eq!(lit_pixels(&emu), vec![(3, 2)]);
    let emu = started(&[0x61, 255, 0x62, 255, 0xA2, 0x08, 0xD1, 0x22, 0xC0, 0xC0], 4);
    assert_eq!(lit_pixels(&emu), vec![(0, 0), (63, 0), (0, 31), (63, 31)]);
}

#[test]
fn draw_of_no_rows_changes_only_the_flag() {
    let emu = started(&[0x6F, 0x01, 0xD0, 0x00], 2);
    assert!(lit_pixels(&emu).is_empty());
    assert_eq!(emu.registers()[0xF], 0);
}

#[test]
fn draw_of_fifteen_rows() {
    let mut program = vec![0xA2, 0x04, 0xD0, 0x0F];
    program.extend_from_slice(&[0x80; 15]);
    let emu = started(&program, 2);
    let expected: Vec<(usize, usize)> = (0..15).map(|y| (0, y)).collect();
    assert_eq!(lit_pixels(&emu), expected);
}

#[test]
fn draw_of_a_sprite_beyond_memory_is_refused() {
    // I = 0xFFF, two rows
    let mut emu = started(&[0xAF, 0xFF, 0xD0, 0x02], 1);
    assert_eq!(emu.step(), Err(Fault::MemoryOutOfBounds));
    assert!(lit_pixels(&emu).is_empty());
    assert_eq!(emu.program_counter(), 0x202);
    // one row, the last byte of memory, is fine
    let mut emu = started(&[0xAF, 0xFF, 0xD0, 0x01], 1);
    assert_eq!(emu.step(), Ok(()));
}

#[test]
fn draw_of_no_rows_reads_no_memory() {
    // I = 0xFFF + 0xFF
    let emu = started(&[0x60, 0xFF, 0xAF, 0xFF, 0xF0, 0x1E, 0x60, 0x00, 0xD0, 0x00], 5);
    assert_eq!(emu.index_register(), 0x10FE);
    assert!(lit_pixels(&emu).is_empty());
}

#[test]
fn clear_screen_turns_every_pixel_off() {
    let mut emu = started(&[0xD0, 0x05, 0x00, 0xE0], 1);
    assert!(!lit_pixels(&emu).is_empty());
    assert_eq!(emu.step(), Ok(()));
    assert!(lit_pixels(&emu).is_empty());
    assert_eq!(emu.display().len(), 2048);
}
