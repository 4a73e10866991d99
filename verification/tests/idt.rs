use cairnos::arch::idt::Entry;
use cairnos::arch::idt::GateType;
use cairnos::arch::idt::{default_gates, init, table_pointer};
use cairnos::arch::ports::{IoLog, IoOp};
use cairnos::utils::bits::u2;

/// The handler offset as the CPU reads it: bits 0-15 and 48-63.
fn offset_bits(v: u64) -> u64 {
    (v & 0xFFFF) | (((v >> 48) & 0xFFFF) << 16)
}

#[test]
fn gate_offset_round_trips() {
    for offset in [0u32, 1, 0xFFFF, 0x1_0000, 0xDEAD_BEEF, 0xFFFF_FFFF] {
        let e = Entry::new().set_offset(offset);
        assert_eq!(offset_bits(e.value()), offset as u64);
    }
}

#[test]
fn gate_selector_sits_in_bits_16_to_31() {
    let e = Entry::new().set_selector(0x8);
    assert_eq!(e.value(), 0x8u64 << 16);
    let f = Entry::new().set_offset(0xFFFF_FFFF).set_selector(0xABCD);
    assert_eq!((f.value() >> 16) & 0xFFFF, 0xABCD);
    assert_eq!(offset_bits(f.value()), 0xFFFF_FFFF);
}

#[test]
fn gate_flag_and_type_fields() {
    assert_eq!(Entry::new().set_p(true).value(), 1u64 << 47);
    assert_eq!(Entry::new().set_dpl(u2::V11).value(), 0b11u64 << 45);
    assert_eq!(Entry::new().set_type(GateType::Task).value(), 0x5u64 << 40);
    assert_eq!(Entry::new().set_type(GateType::Interrupt).value(), 0xEu64 << 40);
    assert_eq!(Entry::new().set_type(GateType::Trap).value(), 0xFu64 << 40);
}

#[test]
fn default_gates_installs_only_the_fault_gate() {
    let handler: u32 = 0x0040_2000;
    let code_selector: u16 = 0x08;
    let gates = default_gates(code_selector, handler);
    assert_eq!(gates.len(), 256);
    for (vector, gate) in gates.iter().enumerate() {
        if vector == 13 {
            let v = gate.value();
            assert_ne!(v, 0);
            assert_eq!((v >> 47) & 1, 1, "present");
            assert_eq!((v >> 40) & 0xF, 0xE, "interrupt gate type");
            assert_eq!((v >> 45) & 0b11, 0, "ring 0");
            assert_eq!(offset_bits(v), handler as u64);
            assert_eq!((v >> 16) & 0xFFFF, code_selector as u64);
        } else {
            assert_eq!(gate.value(), 0);
        }
    }
}

#[test]
fn gate_table_pointer_stores_length_minus_one() {
    let d = table_pointer(256, 0x0020_0000);
    assert_eq!(d.size, 256 * 8 - 1);
    assert_eq!(d.offset, 0x0020_0000);
}

#[test]
fn pointer_serializes_to_six_little_endian_bytes() {
    let gdt = cairnos::arch::gdt::table_pointer(5, 0x0010_0000);
    assert_eq!(gdt.to_bytes(), [40, 0, 0x00, 0x00, 0x10, 0x00]);
    let idt = table_pointer(256, 0x0020_0000);
    assert_eq!(idt.to_bytes(), [0xFF, 0x07, 0x00, 0x00, 0x20, 0x00]);
    let odd = cairnos::arch::tables::Descriptor { size: 0xABCD, offset: 0x1234_5678 };
    assert_eq!(odd.to_bytes(), [0xCD, 0xAB, 0x78, 0x56, 0x34, 0x12]);
}

#[test]
fn both_pointer_conventions_differ_as_mandated() {
    let gdt = cairnos::arch::gdt::table_pointer(5, 0);
    let idt = table_pointer(5, 0);
    assert_eq!(gdt.size, 40);
    assert_eq!(idt.size, 39);
}

fn out(port: u16, value: u8) -> IoOp {
    IoOp::Out { port, value }
}

#[test]
fn pic_init_emits_the_four_phase_sequence() {
    let mut log = IoLog::new();
    init(&mut log, 0x20, 0x28, 0xB8, 0x8F);
    assert_eq!(log.len(), 20);
    // the saved masks are read first
    assert_eq!(log.get(0), IoOp::In { port: 0x21, value: 0xB8 });
    assert_eq!(log.get(1), IoOp::In { port: 0xA1, value: 0x8F });
    // ICW1 to both command ports, each paced by a delay write
    assert_eq!(log.get(2), out(0x20, 0x11));
    assert_eq!(log.get(3), out(0x80, 0));
    assert_eq!(log.get(4), out(0xA0, 0x11));
    assert_eq!(log.get(5), out(0x80, 0));
    // ICW2: the vector offsets
    assert_eq!(log.get(6), out(0x21, 0x20));
    assert_eq!(log.get(8), out(0xA1, 0x28));
    // ICW3: the cascade wiring
    assert_eq!(log.get(10), out(0x21, 0x04));
    assert_eq!(log.get(12), out(0xA1, 0x02));
    // ICW4: 8086 mode
    assert_eq!(log.get(14), out(0x21, 0x01));
    assert_eq!(log.get(16), out(0xA1, 0x01));
}

#[test]
fn pic_init_restores_arbitrary_masks() {
    for (m1, m2) in [(0x00u8, 0x00u8), (0xFF, 0xFF), (0xAB, 0xCD), (0x01, 0x80)] {
        let mut log = IoLog::new();
        init(&mut log, 0x40, 0x48, m1, m2);
        assert_eq!(log.get(0), IoOp::In { port: 0x21, value: m1 });
        assert_eq!(log.get(1), IoOp::In { port: 0xA1, value: m2 });
        assert_eq!(log.get(18), out(0x21, m1));
        assert_eq!(log.get(19), out(0xA1, m2));
    }
}
