use lora_e5::bitfield::{clear_flag, is_field_set, read_field, set_flag, write_field};

#[test]
fn write_then_read_field() {
    let r = write_field(0xFFFF_FFFF, 4, 0xF, 0x1A);
    assert_eq!(r, 0xFFFF_FFAF);
    assert_eq!(read_field(r, 4, 0xF), 0xA);
    assert_eq!(read_field(r, 0, 0xF), 0xF);
    assert_eq!(read_field(r, 8, 0xFF), 0xFF);
}

#[test]
fn write_keeps_other_fields() {
    let r = write_field(0x1234_5678, 8, 0xFF, 0);
    assert_eq!(r, 0x1234_0078);
    assert_eq!(read_field(r, 16, 0xFFFF), 0x1234);
}

#[test]
fn flags() {
    let r = set_flag(0, 31);
    assert_eq!(r, 0x8000_0000);
    assert!(is_field_set(r, 31, 1));
    assert!(!is_field_set(r, 30, 1));
    let r = clear_flag(0xFFFF_FFFF, 0);
    assert_eq!(r, 0xFFFF_FFFE);
    assert!(!is_field_set(r, 0, 1));
    assert!(is_field_set(0b0100, 1, 0b11));
    assert!(!is_field_set(0b1001, 1, 0b11));
}
