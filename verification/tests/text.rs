use c8_core::text::dump_registers;
use c8_core::{
    KEY_COUNT, MEMORY_SIZE, REGISTER_COUNT, SCREEN_HEIGHT, SCREEN_SIZE, SCREEN_WIDTH, STACK_DEPTH,
    START_ADDRESS,
};

#[test]
fn dump_of_zeroed_registers() {
    assert_eq!(
        dump_registers(&[0; 16]),
        "[ V00: 00 V01: 00 V02: 00 V03: 00 ]\n\
         [ V04: 00 V05: 00 V06: 00 V07: 00 ]\n\
         [ V08: 00 V09: 00 V10: 00 V11: 00 ]\n\
         [ V12: 00 V13: 00 V14: 00 V15: 00 ]"
    );
}

#[test]
fn dump_uses_two_capital_hexadecimal_digits() {
    let registers = [
        0x00, 0x01, 0x09, 0x0A, 0x0F, 0x10, 0x1F, 0x7F, 0x80, 0x99, 0xA0, 0xAB, 0xCD, 0xEF, 0xF0,
        0xFF,
    ];
    assert_eq!(
        dump_registers(&registers),
        "[ V00: 00 V01: 01 V02: 09 V03: 0A ]\n\
         [ V04: 0F V05: 10 V06: 1F V07: 7F ]\n\
         [ V08: 80 V09: 99 V10: A0 V11: AB ]\n\
         [ V12: CD V13: EF V14: F0 V15: FF ]"
    );
}

#[test]
fn dump_has_four_lines_of_equal_length() {
    let text = dump_registers(&[0x5A; 16]);
    let lines: Vec<&str> = text.split('\n').collect();
    assert_eq!(lines.len(), 4);
    for line in &lines {
        assert_eq!(line.len(), 35);
        assert!(line.starts_with("[ V"));
        assert!(line.ends_with(" ]"));
    }
    assert!(!text.ends_with('\n'));
}

#[test]
fn dump_matches_formatting_for_every_byte() {
    for value in 0..=255u8 {
        let mut registers = [0u8; 16];
        registers[(value % 16) as usize] = value;
        let text = dump_registers(&registers);
        let cell = format!("V{:02}: {:02X}", value % 16, value);
        assert!(text.contains(&cell), "{cell} in {text}");
    }
}

#[test]
fn sizes_of_the_machine() {
    assert_eq!(SCREEN_WIDTH, 64);
    assert_eq!(SCREEN_HEIGHT, 32);
    assert_eq!(SCREEN_SIZE, 2048);
    assert_eq!(MEMORY_SIZE, 4096);
    assert_eq!(START_ADDRESS, 0x200);
    assert_eq!(STACK_DEPTH, 16);
    assert_eq!(REGISTER_COUNT, 16);
    assert_eq!(KEY_COUNT, 16);
}
