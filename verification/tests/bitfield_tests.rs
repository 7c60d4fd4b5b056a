use rk3399os::bitfield::{read_field_u64, FieldSetting, RegField};

#[test]
fn field_val_shifts_and_masks() {
    let f = RegField::new(0xF, 4);
    assert_eq!(f.val(0x1F), FieldSetting { mask: 0xF0, value: 0xF0 });
    assert_eq!(f.val(0x3), FieldSetting { mask: 0xF0, value: 0x30 });
    assert_eq!(f.set_all(), FieldSetting { mask: 0xF0, value: 0xF0 });
    assert_eq!(f.clear_all(), FieldSetting { mask: 0xF0, value: 0 });
}

#[test]
fn field_settings_combine() {
    let a = RegField::new(1, 0).val(1);
    let b = RegField::new(3, 4).val(2);
    assert_eq!(a.plus(b), FieldSetting { mask: 0x31, value: 0x21 });
    assert_eq!(a.plus(b), b.plus(a));
}

#[test]
fn modify_replaces_only_covered_bits() {
    let s = FieldSetting { mask: 0xF0, value: 0x50 };
    assert_eq!(s.modify(0xFFFF_FFFF), 0xFFFF_FF5F);
    assert_eq!(s.modify(0), 0x50);
    assert!(s.matches_all(s.modify(0x1234_5678)));
    assert!(!s.matches_all(0x0000_0060));
    assert!(s.matches_all(0xFFFF_FF5F));
}

#[test]
fn field_read_back() {
    let f = RegField::new(3, 2);
    assert_eq!(f.read(0b1110), 0b11);
    assert_eq!(f.read(f.val(2).modify(0xFFFF_FFFF)), 2);
    assert_eq!(read_field_u64(0xFFFF_FFFF, 31, u64::MAX), 0xFFFF_FFFF);
    assert_eq!(read_field_u64(0xFFFF_FFFF, 31, 1u64 << 31), 1);
    assert_eq!(read_field_u64(0xFF, 8, 0xABCD), 0xAB);
}
