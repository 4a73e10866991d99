use cairnos::arch::gdt::Entry;
use cairnos::arch::gdt::SystemSegmentType;
use cairnos::arch::gdt::{default_segments, selector, table_pointer};
use cairnos::utils::bits::u2;

/// The limit field as the CPU reads it: bits 0-15 and 48-51.
fn limit_bits(v: u64) -> u64 {
    (v & 0xFFFF) | (((v >> 48) & 0xF) << 16)
}

/// The base field as the CPU reads it: bits 16-39 and 56-63.
fn base_bits(v: u64) -> u64 {
    ((v >> 16) & 0x00FF_FFFF) | (((v >> 56) & 0xFF) << 24)
}

#[test]
fn selector_kernel_code() {
    assert_eq!(selector(1, false, u2::V00), 0x08);
    assert_eq!(selector(2, false, u2::V00), 0x10);
}

#[test]
fn selector_fields_for_all_privileges() {
    let dpls = [u2::V00, u2::V01, u2::V10, u2::V11];
    for (i, dpl) in dpls.iter().enumerate() {
        for index in [0u16, 1, 13, 8191] {
            for ti in [false, true] {
                let sel = selector(index, ti, *dpl);
                assert_eq!(sel & 0b11, i as u16);
                assert_eq!((sel >> 2) & 1, ti as u16);
                assert_eq!(sel >> 3, index);
            }
        }
    }
}

#[test]
fn selector_truncates_13_bit_index() {
    assert_eq!(selector(8192, false, u2::V00), 0);
    assert_eq!(selector(8193, true, u2::V01), selector(1, true, u2::V01));
}

#[test]
fn encode_kernel_code_descriptor() {
    let e = Entry::new()
        .set_base(0)
        .set_limit(0x7FFFF)
        .set_p(true)
        .set_dpl(u2::V00)
        .set_s(true)
        .set_e(true)
        .set_dc(false)
        .set_rw(true)
        .set_a(true)
        .set_g(true)
        .set_db(true);
    assert_eq!(e.value(), 0x00C7_9B00_0000_FFFF);
}

#[test]
fn limit_round_trips_up_to_truncation() {
    for limit in [0u32, 1, 0xFFFF, 0xF_FFFF, 0x8_0000, 0xFFFF_FFFF] {
        let e = Entry::new().set_limit(limit);
        assert_eq!(limit_bits(e.value()), (limit & 0xF_FFFF) as u64);
    }
}

#[test]
fn base_round_trips_exactly() {
    for base in [0u32, 1, 0x7FFFF, 0xDEAD_BEEF, 0xFFFF_FFFF] {
        let e = Entry::new().set_base(base);
        assert_eq!(base_bits(e.value()), base as u64);
    }
}

#[test]
fn base_and_limit_do_not_disturb_each_other() {
    let e = Entry::new().set_base(0x1234_5678).set_limit(0xABCDE);
    assert_eq!(base_bits(e.value()), 0x1234_5678);
    assert_eq!(limit_bits(e.value()), 0xABCDE);
    let f = Entry::new().set_limit(0xABCDE).set_base(0x1234_5678);
    assert_eq!(e.value(), f.value());
}

#[test]
fn flag_setters_place_single_bits() {
    assert_eq!(Entry::new().set_p(true).value(), 1u64 << 47);
    assert_eq!(Entry::new().set_s(true).value(), 1u64 << 44);
    assert_eq!(Entry::new().set_e(true).value(), 1u64 << 43);
    assert_eq!(Entry::new().set_dc(true).value(), 1u64 << 42);
    assert_eq!(Entry::new().set_rw(true).value(), 1u64 << 41);
    assert_eq!(Entry::new().set_a(true).value(), 1u64 << 40);
    assert_eq!(Entry::new().set_g(true).value(), 1u64 << 55);
    assert_eq!(Entry::new().set_db(true).value(), 1u64 << 54);
}

#[test]
fn flag_setters_clear_bits_again() {
    assert_eq!(Entry::new().set_p(true).set_p(false).value(), 0);
    assert_eq!(Entry::new().set_g(true).set_db(true).set_g(false).value(), 1u64 << 54);
}

#[test]
fn dpl_setter_places_two_bits() {
    assert_eq!(Entry::new().set_dpl(u2::V11).value(), 0b11u64 << 45);
    assert_eq!(Entry::new().set_dpl(u2::V10).value(), 0b10u64 << 45);
    assert_eq!(Entry::new().set_dpl(u2::V11).set_dpl(u2::V00).value(), 0);
}

#[test]
fn system_segment_type_field() {
    assert_eq!(Entry::new().set_type(SystemSegmentType::Ldt).value(), 0x2u64 << 43);
    assert_eq!(Entry::new().set_type(SystemSegmentType::TssAvailable).value(), 0x9u64 << 43);
    assert_eq!(Entry::new().set_type(SystemSegmentType::TssBusy).value(), 0xBu64 << 43);
}

#[test]
fn long_mode_setter_shares_the_executable_bit() {
    // The long-mode flag writes bit 43, the executable bit's position; the
    // collision is part of the design.
    assert_eq!(Entry::new().set_l(true).value(), Entry::new().set_e(true).value());
}

#[test]
fn access_byte_and_flags_getters() {
    let e = Entry::new()
        .set_limit(0x7FFFF)
        .set_p(true)
        .set_s(true)
        .set_e(true)
        .set_rw(true)
        .set_a(true)
        .set_g(true)
        .set_db(true);
    assert_eq!(e.get_access_byte(), 0x9B);
    assert_eq!(e.get_flags(), 0xC);
}

#[test]
fn default_table_has_null_then_four_present_entries() {
    let segs = default_segments();
    assert_eq!(segs.len(), 5);
    assert_eq!(segs[0].value(), 0);
    for e in &segs[1..] {
        assert_ne!(e.value(), 0);
        assert_eq!((e.value() >> 47) & 1, 1);
    }
}

#[test]
fn default_table_exact_words() {
    let segs = default_segments();
    assert_eq!(segs[1].value(), 0x00C7_9B00_0000_FFFF);
    assert_eq!(segs[2].value(), 0x00C7_9300_0000_FFFF);
    assert_eq!(segs[3].value(), 0x00C7_FB00_0000_FFFF);
    assert_eq!(segs[4].value(), 0x00C7_F300_0000_FFFF);
}

#[test]
fn default_table_user_entries_are_ring_3_at_base_0() {
    let segs = default_segments();
    let user_code = segs[3].value();
    let user_data = segs[4].value();
    for v in [user_code, user_data] {
        assert_eq!(base_bits(v), 0);
        assert_eq!(limit_bits(v), 0x7FFFF);
        assert_eq!((v >> 45) & 0b11, 3, "ring 3");
        assert_eq!((v >> 52) & 0xF, 0xC, "4KiB granular, 32-bit");
    }
    assert_eq!((user_code >> 43) & 1, 1, "user code is executable");
    assert_eq!((user_data >> 43) & 1, 0, "user data is not");
    assert_eq!(segs[3].get_access_byte(), 0xFB);
    assert_eq!(segs[4].get_access_byte(), 0xF3);
}

#[test]
fn segment_table_pointer_stores_raw_byte_length() {
    let d = table_pointer(5, 0x0010_0000);
    assert_eq!(d.size, 5 * 8);
    assert_eq!(d.offset, 0x0010_0000);
}
