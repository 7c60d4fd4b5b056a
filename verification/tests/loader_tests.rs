use rk3399os::loader::boot::{KernelLoader, LoaderAction, KERNEL_LOAD_ADDR};
use rk3399os::loader::cpu::current_privilege_level_str;

#[test]
fn loader_reads_size_then_stores_image() {
    let mut l = KernelLoader::new();
    for b in [3u8, 0, 0, 0] {
        assert_eq!(l.receive(b), LoaderAction::SizeByte);
    }
    assert_eq!(l.size, 3);
    assert!(!l.is_done());
    assert_eq!(l.receive(0xAA), LoaderAction::StoreByte { addr: KERNEL_LOAD_ADDR, byte: 0xAA });
    assert_eq!(l.receive(0xBB), LoaderAction::StoreByte { addr: KERNEL_LOAD_ADDR + 1, byte: 0xBB });
    assert_eq!(l.receive(0xCC), LoaderAction::StoreByte { addr: KERNEL_LOAD_ADDR + 2, byte: 0xCC });
    assert!(l.is_done());
    assert_eq!(l.receive(0xDD), LoaderAction::Ignore);
    assert_eq!(l.entry_point(), 0x208_8000);
}

#[test]
fn loader_size_is_little_endian() {
    let mut l = KernelLoader::new();
    for b in [0x78u8, 0x56, 0x34, 0x12] {
        l.receive(b);
    }
    assert_eq!(l.size, 0x1234_5678);
    assert_eq!(l.size, u32::from_le_bytes([0x78, 0x56, 0x34, 0x12]));
}

#[test]
fn empty_image_is_done_after_size() {
    let mut l = KernelLoader::new();
    for _ in 0..4 {
        l.receive(0);
    }
    assert!(l.is_done());
    assert_eq!(l.receive(1), LoaderAction::Ignore);
}

#[test]
fn privilege_level_names() {
    assert_eq!(current_privilege_level_str(0), "EL0");
    assert_eq!(current_privilege_level_str(1), "EL1");
    assert_eq!(current_privilege_level_str(2), "EL2");
    assert_eq!(current_privilege_level_str(3), "EL3");
    assert_eq!(current_privilege_level_str(4), "Unknown");
}
