use chip8::keypad::{key_code, key_from_char, key_state_down};
use chip8::CPU;

#[test]
fn key_codes_are_the_digit_and_letter_keys() {
    let expected = [
        0x30, 0x31, 0x32, 0x33, 0x34, 0x35, 0x36, 0x37, 0x38, 0x39, 0x41, 0x42, 0x43, 0x44, 0x45,
        0x46,
    ];
    for key in 0..16u8 {
        assert_eq!(key_code(key), expected[key as usize]);
    }
    assert_eq!(key_code(16), 0x30);
    assert_eq!(key_code(255), 0x30);
}

#[test]
fn key_state_is_down_when_the_top_bit_is_set() {
    assert!(key_state_down(i16::MIN));
    assert!(key_state_down(-1));
    assert!(key_state_down(0x8001u16 as i16));
    assert!(!key_state_down(0));
    assert!(!key_state_down(1));
    assert!(!key_state_down(i16::MAX));
}

#[test]
fn characters_map_to_keys() {
    assert_eq!(key_from_char(b'0'), 0x0);
    assert_eq!(key_from_char(b'1'), 0x1);
    assert_eq!(key_from_char(b'9'), 0x9);
    assert_eq!(key_from_char(b'a'), 0xA);
    assert_eq!(key_from_char(b'A'), 0xA);
    assert_eq!(key_from_char(b'c'), 0xC);
    assert_eq!(key_from_char(b'f'), 0xF);
    assert_eq!(key_from_char(b'F'), 0xF);
    assert_eq!(key_from_char(b'g'), 0x0);
    assert_eq!(key_from_char(b'G'), 0x0);
    assert_eq!(key_from_char(b'/'), 0x0);
    assert_eq!(key_from_char(b':'), 0x0);
    assert_eq!(key_from_char(b'@'), 0x0);
    assert_eq!(key_from_char(b'`'), 0x0);
    assert_eq!(key_from_char(b'\n'), 0x0);
    assert_eq!(key_from_char(0xFF), 0x0);
}

#[test]
fn keypad_sample_is_read_back() {
    let mut cpu = CPU::new();
    for key in 0..16u8 {
        assert!(!cpu.is_key_pressed(key));
    }
    cpu.set_key(0xB, true);
    assert!(cpu.is_key_pressed(0xB));
    assert!(!cpu.is_key_pressed(0xA));
    cpu.set_key(0xB, false);
    assert!(!cpu.is_key_pressed(0xB));
    // Values beyond F ask about key 0.
    cpu.set_key(0, true);
    assert!(cpu.is_key_pressed(0x10));
    assert!(cpu.is_key_pressed(0xFF));
}

#[test]
fn skip_if_key_pressed() {
    let mut cpu = CPU::new();
    cpu.set6xnn(4, 0x7);
    cpu.pc = 0x300;
    cpu.skpex9e(4);
    assert_eq!(cpu.pc, 0x300);
    cpu.set_key(0x7, true);
    cpu.skpex9e(4);
    assert_eq!(cpu.pc, 0x302);
}

#[test]
fn skip_if_key_not_pressed() {
    let mut cpu = CPU::new();
    cpu.set6xnn(4, 0x7);
    cpu.pc = 0x300;
    cpu.skpexa1(4);
    assert_eq!(cpu.pc, 0x302);
    cpu.set_key(0x7, true);
    cpu.skpexa1(4);
    assert_eq!(cpu.pc, 0x302);
}

#[test]
fn awaited_key_goes_into_vx() {
    let mut cpu = CPU::new();
    cpu.ldfx0a(6, b'd');
    assert_eq!(cpu.registers[6], 0xD);
    cpu.ldfx0a(6, b'7');
    assert_eq!(cpu.registers[6], 0x7);
    cpu.ldfx0a(6, b'x');
    assert_eq!(cpu.registers[6], 0x0);
    assert_eq!(cpu.pc, 0x200);
}
