use cairnos::mem::MmapType;
use cairnos::multiboot::{Info, Symbols, Vbe, MAGIC};
use cairnos::vga::FrameBuffer;

#[test]
fn the_magic_number() {
    assert_eq!(MAGIC, 0x2BAD_B002);
}

#[test]
fn an_empty_record_reports_nothing() {
    let info = Info::default();
    assert_eq!(info.get_flags(), 0);
    assert!(info.get_mem().is_none());
    assert!(info.get_boot_device().is_none());
    assert!(info.get_mods().is_none());
    assert!(info.get_syms().is_none());
    assert!(info.get_drives().is_none());
    assert!(info.get_config_table().is_none());
    assert!(info.get_vbe().is_none());
    assert!(info.get_framebuffer().is_none());
}

#[test]
fn flags_are_single_bits() {
    let info = Info { flags: 0b1000_0000_0101, ..Info::default() };
    assert!(info.is_flag_set(0));
    assert!(!info.is_flag_set(1));
    assert!(info.is_flag_set(2));
    assert!(info.is_flag_set(11));
    assert!(!info.is_flag_set(12));
    assert_eq!(info.get_flags(), 0b1000_0000_0101);
}

#[test]
fn memory_sizes_come_under_flag_0() {
    let info = Info { flags: 1, mem_lower: 640, mem_upper: 31744, ..Info::default() };
    assert_eq!(info.get_mem(), Some((640, 31744)));
    let without = Info { mem_lower: 640, mem_upper: 31744, ..Info::default() };
    assert_eq!(without.get_mem(), None);
}

#[test]
fn boot_device_mods_drives_config_table() {
    let info = Info {
        flags: (1 << 1) | (1 << 3) | (1 << 7) | (1 << 8),
        boot_device: 0x8000_0000,
        mods_count: 2,
        mods_addr: 0x9000,
        drives_length: 16,
        drives_addr: 0xA000,
        config_table: 0xB000,
        ..Info::default()
    };
    assert_eq!(info.get_boot_device(), Some(0x8000_0000));
    assert_eq!(info.get_mods(), Some((2, 0x9000)));
    assert_eq!(info.get_drives(), Some((16, 0xA000)));
    assert_eq!(info.get_config_table(), Some(0xB000));
}

#[test]
fn symbols_follow_the_flag_pair() {
    let base = Info { syms: [10, 20, 30, 40], ..Info::default() };
    let aout = Info { flags: 1 << 4, ..base };
    match aout.get_syms() {
        Some(Symbols::AOut { tabsize, strsize, addr }) => {
            assert_eq!((tabsize, strsize, addr), (10, 20, 30));
        }
        other => panic!("expected a.out symbols, got {other:?}"),
    }
    let elf = Info { flags: 1 << 5, ..base };
    match elf.get_syms() {
        Some(Symbols::Elf { num, size, addr, shndx }) => {
            assert_eq!((num, size, addr, shndx), (10, 20, 30, 40));
        }
        other => panic!("expected ELF symbols, got {other:?}"),
    }
    let both = Info { flags: (1 << 4) | (1 << 5), ..base };
    assert!(both.get_syms().is_none());
    assert!(base.get_syms().is_none());
}

#[test]
fn vbe_comes_under_flag_11() {
    let info = Info { flags: 1 << 11, ..Info::default() };
    assert_eq!(info.get_vbe(), Some(Vbe));
}

#[test]
fn framebuffer_geometry_halves_the_byte_pitch() {
    let info = Info {
        flags: 1 << 12,
        framebuffer_addr: 0xB8000,
        framebuffer_pitch: 160,
        framebuffer_width: 80,
        framebuffer_height: 25,
        ..Info::default()
    };
    assert_eq!(info.get_framebuffer(), Some(FrameBuffer::new(80, 25, 80, 0xB8000)));
}

#[test]
fn framebuffer_needs_its_flag_and_a_32_bit_address() {
    let unset = Info { framebuffer_addr: 0xB8000, ..Info::default() };
    assert!(unset.get_framebuffer().is_none());
    let too_high = Info {
        flags: 1 << 12,
        framebuffer_addr: 0x1_0000_0000,
        ..Info::default()
    };
    assert!(too_high.get_framebuffer().is_none());
}

#[test]
fn memory_map_kinds_carry_their_codes() {
    assert_eq!(MmapType::Available.code(), 1);
    assert_eq!(MmapType::Reserved.code(), 2);
    assert_eq!(MmapType::AcpiReclaimable.code(), 3);
    assert_eq!(MmapType::Nvs.code(), 4);
    assert_eq!(MmapType::Badram.code(), 5);
}

#[test]
fn memory_map_records_hold_their_fields() {
    let m = cairnos::mem::Mmap { size: 20, addr: 0x10_0000, len: 0x7FF0_0000, typ: MmapType::Available };
    assert_eq!(m.size, 20);
    assert_eq!(m.addr, 0x10_0000);
    assert_eq!(m.len, 0x7FF0_0000);
    assert_eq!(m.typ, MmapType::Available);
}
