//! The Interrupt Descriptor Table and the legacy interrupt controller.
//!
//! A gate descriptor is one 64-bit word mapping an interrupt vector to a
//! handler entry point; its field positions are fixed by the CPU. The module
//! also carries the four-phase command sequence that remaps the two cascaded
//! interrupt controllers, stated transaction by transaction.

use vstd::prelude::*;

use crate::arch::ports::IoLog;
use crate::arch::ports::IoOp;
use crate::arch::ports::Port;
use crate::arch::ports::UNUSED_PORT;
use crate::arch::tables::Descriptor;
use crate::utils::bits::u2;
use crate::utils::bits::with_bit;
use crate::utils::bits::with_bits;

verus! {

/// Command port of the master interrupt controller.
pub const PIC1_CMD: u16 = 0x20;

/// Data port of the master interrupt controller.
pub const PIC1_DATA: u16 = 0x21;

/// Command port of the slave interrupt controller.
pub const PIC2_CMD: u16 = 0xA0;

/// Data port of the slave interrupt controller.
pub const PIC2_DATA: u16 = 0xA1;

/// First initialization command word: begin initialization.
pub const ICW1_INIT: u8 = 0x10;

/// First initialization command word: a fourth command word follows.
pub const ICW1_ICW4_NEEDED: u8 = 0x01;

/// The master line the slave controller cascades on.
pub const PIC2_IRQ: u8 = 0x2;

/// Fourth initialization command word: 8086-compatible mode.
pub const MODE_8086: u8 = 0x1;

/// The exact transaction sequence that reprograms the two controllers:
/// both masks are read first; each controller then gets the four
/// initialization command words, every byte paced by a delay write; finally
/// the saved masks are written back verbatim.
pub open spec fn pic_init_trace(offset1: u8, offset2: u8, mask1: u8, mask2: u8) -> Seq<IoOp> {
    seq![
        IoOp::In { port: PIC1_DATA, value: mask1 },
        IoOp::In { port: PIC2_DATA, value: mask2 },
        IoOp::Out { port: PIC1_CMD, value: ICW1_INIT | ICW1_ICW4_NEEDED },
        IoOp::Out { port: UNUSED_PORT, value: 0 },
        IoOp::Out { port: PIC2_CMD, value: ICW1_INIT | ICW1_ICW4_NEEDED },
        IoOp::Out { port: UNUSED_PORT, value: 0 },
        IoOp::Out { port: PIC1_DATA, value: offset1 },
        IoOp::Out { port: UNUSED_PORT, value: 0 },
        IoOp::Out { port: PIC2_DATA, value: offset2 },
        IoOp::Out { port: UNUSED_PORT, value: 0 },
        IoOp::Out { port: PIC1_DATA, value: PIC2_IRQ << 1 },
        IoOp::Out { port: UNUSED_PORT, value: 0 },
        IoOp::Out { port: PIC2_DATA, value: PIC2_IRQ },
        IoOp::Out { port: UNUSED_PORT, value: 0 },
        IoOp::Out { port: PIC1_DATA, value: MODE_8086 },
        IoOp::Out { port: UNUSED_PORT, value: 0 },
        IoOp::Out { port: PIC2_DATA, value: MODE_8086 },
        IoOp::Out { port: UNUSED_PORT, value: 0 },
        IoOp::Out { port: PIC1_DATA, value: mask1 },
        IoOp::Out { port: PIC2_DATA, value: mask2 },
    ]
}

/// Whatever the initial masks were, the reprogramming sequence reads them in
/// its first two transactions and writes them back verbatim in its last two:
/// remapping vectors never loses an established masking policy.
pub proof fn lemma_pic_masks_restored(offset1: u8, offset2: u8, mask1: u8, mask2: u8)
    ensures
        pic_init_trace(offset1, offset2, mask1, mask2).len() == 20,
        pic_init_trace(offset1, offset2, mask1, mask2)[0] == (IoOp::In {
            port: PIC1_DATA,
            value: mask1,
        }),
        pic_init_trace(offset1, offset2, mask1, mask2)[1] == (IoOp::In {
            port: PIC2_DATA,
            value: mask2,
        }),
        pic_init_trace(offset1, offset2, mask1, mask2)[18] == (IoOp::Out {
            port: PIC1_DATA,
            value: mask1,
        }),
        pic_init_trace(offset1, offset2, mask1, mask2)[19] == (IoOp::Out {
            port: PIC2_DATA,
            value: mask2,
        }),
{
}

/// Remaps the two cascaded controllers so their lines land on vectors
/// `offset1` and `offset2` upward. `mask1` and `mask2` are the bytes the two
/// mask registers answer when read; the sequence restores them at the end.
pub fn init(log: &mut IoLog, offset1: u8, offset2: u8, mask1: u8, mask2: u8)
    ensures
        final(log)@ == old(log)@ + pic_init_trace(offset1, offset2, mask1, mask2),
{
    let pic1_cmd = Port::new(PIC1_CMD);
    let pic1_data = Port::new(PIC1_DATA);
    let pic2_cmd = Port::new(PIC2_CMD);
    let pic2_data = Port::new(PIC2_DATA);

    let m1 = pic1_data.in_u8(log, mask1);
    let m2 = pic2_data.in_u8(log, mask2);

    pic1_cmd.slow_out_u8(log, ICW1_INIT | ICW1_ICW4_NEEDED);
    pic2_cmd.slow_out_u8(log, ICW1_INIT | ICW1_ICW4_NEEDED);
    pic1_data.slow_out_u8(log, offset1);
    pic2_data.slow_out_u8(log, offset2);
    pic1_data.slow_out_u8(log, PIC2_IRQ << 1);
    pic2_data.slow_out_u8(log, PIC2_IRQ);
    pic1_data.slow_out_u8(log, MODE_8086);
    pic2_data.slow_out_u8(log, MODE_8086);

    pic1_data.out_u8(log, m1);
    pic2_data.out_u8(log, m2);

    proof {
        assert(log@ =~= old(log)@ + pic_init_trace(offset1, offset2, mask1, mask2));
    }
}

/// `v` with the 32-bit handler offset replaced; the offset sits in bits 0-15
/// and 48-63.
pub open spec fn with_offset(v: u64, offset: u32) -> u64 {
    (v & !0xFFFF0000_0000FFFFu64) | ((offset as u64) & 0xFFFF0000) << 32 | ((offset as u64)
        & 0x0000FFFF)
}

/// `v` with the 16-bit code-segment selector (bits 16-31) replaced.
pub open spec fn with_selector(v: u64, selector: u16) -> u64 {
    (v & !0x00000000_FFFF0000u64) | (selector as u64) << 16
}

/// The 32-bit handler offset of a gate.
pub open spec fn offset_of_gate(v: u64) -> u64 {
    (v & 0xFFFF) | (((v >> 48) & 0xFFFF) << 16)
}

/// The 16-bit selector of a gate.
pub open spec fn selector_of_gate(v: u64) -> u64 {
    (v >> 16) & 0xFFFF
}

/// The 4-bit gate-type field (bits 40-43).
pub open spec fn type_of_gate(v: u64) -> u64 {
    (v >> 40) & 0xF
}

/// Whether the present bit (47) is set.
pub open spec fn is_present(v: u64) -> bool {
    v & (1u64 << 47) != 0
}

/// The two privilege-level bits (45-46).
pub open spec fn dpl_of(v: u64) -> u64 {
    (v >> 45) & 0b11
}

/// One gate descriptor; its view is the 64-bit word the CPU reads. The zero
/// word is the absent gate: taking it faults.
#[derive(Clone, Copy, Debug)]
pub struct Entry(u64);

impl View for Entry {
    type V = u64;

    closed spec fn view(&self) -> u64 {
        self.0
    }
}

/// Gate kinds the CPU knows, by their 4-bit type field.
#[derive(Clone, Copy, Debug)]
pub enum GateType {
    Task,
    Interrupt,
    Trap,
}

impl GateType {
    /// The 4-bit type-field encoding of this gate kind.
    pub open spec fn spec_value(self) -> u8 {
        match self {
            GateType::Task => 0x5,
            GateType::Interrupt => 0xE,
            GateType::Trap => 0xF,
        }
    }

    /// The 4-bit type-field encoding of this gate kind.
    #[verifier::when_used_as_spec(spec_value)]
    pub fn value(self) -> (r: u8)
        ensures
            r == self.spec_value(),
            r < 16,
    {
        match self {
            GateType::Task => 0x5,
            GateType::Interrupt => 0xE,
            GateType::Trap => 0xF,
        }
    }
}

/// The field width of the type field, as a shift expression.
proof fn lemma_gate_field_widths()
    by (bit_vector)
    ensures
        (1u64 << 2u64) == 4,
        (1u64 << 4u64) == 16,
{
}

impl Entry {
    /// The absent gate; a vector left at this value faults when taken.
    pub fn new() -> (r: Self)
        ensures
            r@ == 0,
    {
        Entry(0)
    }

    /// The 64-bit word as the CPU will read it.
    pub fn value(self) -> (r: u64)
        ensures
            r == self@,
    {
        self.0
    }

    fn set_bit(self, offset: u64, bit: bool) -> (r: Self)
        requires
            offset < 64,
        ensures
            r@ == with_bit(self@, offset, bit),
    {
        let mask = 1u64 << offset;
        if bit {
            Entry(self.0 | mask)
        } else {
            Entry(self.0 & !mask)
        }
    }

    fn set_bits(self, offset: u64, bits: u64, len: u64) -> (r: Self)
        requires
            offset < 64,
            len < 64,
            bits < (1u64 << len),
        ensures
            r@ == with_bits(self@, offset, bits, len),
    {
        let mask = ((1u64 << len) - 1) << offset;
        Entry((self.0 & !mask) | (bits << offset))
    }

    /// Replaces the 32-bit handler offset (bits 0-15 and 48-63).
    pub fn set_offset(self, offset: u32) -> (r: Self)
        ensures
            r@ == with_offset(self@, offset),
    {
        Entry(
            (self.0 & !0xFFFF0000_0000FFFF) | (offset as u64 & 0xFFFF0000) << 32 | (offset as u64
                & 0x0000FFFF),
        )
    }

    /// Replaces the 16-bit code-segment selector (bits 16-31).
    pub fn set_selector(self, selector: u16) -> (r: Self)
        ensures
            r@ == with_selector(self@, selector),
    {
        Entry((self.0 & !0x00000000_FFFF0000) | (selector as u64) << 16)
    }

    /// Sets the present bit (47).
    pub fn set_p(self, bit: bool) -> (r: Self)
        ensures
            r@ == with_bit(self@, 47, bit),
    {
        self.set_bit(47, bit)
    }

    /// Sets the two privilege-level bits (45-46).
    pub fn set_dpl(self, dpl: u2) -> (r: Self)
        ensures
            r@ == with_bits(self@, 45, dpl.spec_value() as u64, 2),
    {
        proof {
            lemma_gate_field_widths();
        }
        self.set_bits(45, dpl.value() as u64, 2)
    }

    /// Replaces the 4-bit gate-type field (bits 40-43).
    pub fn set_type(self, typ: GateType) -> (r: Self)
        ensures
            r@ == with_bits(self@, 40, typ.spec_value() as u64, 4),
    {
        proof {
            lemma_gate_field_widths();
        }
        self.set_bits(40, typ.value() as u64, 4)
    }
}

/// The one gate the default table installs: an interrupt gate at ring 0 for
/// handler `handler` through code selector `selector`.
pub open spec fn fault_gate_entry(handler: u32, selector: u16) -> u64 {
    with_bits(
        with_bits(with_bit(with_selector(with_offset(0, handler), selector), 47, true), 45, 0, 2),
        40,
        0xE,
        4,
    )
}

/// Field-level reading of the installed gate: it is present, an interrupt
/// gate, at ring 0, and carries the handler offset and selector unchanged;
/// in particular it is never the zero (absent) gate.
pub proof fn lemma_fault_gate_fields(handler: u32, selector: u16)
    by (bit_vector)
    ensures
        type_of_gate(fault_gate_entry(handler, selector)) == 0xE,
        is_present(fault_gate_entry(handler, selector)),
        dpl_of(fault_gate_entry(handler, selector)) == 0,
        offset_of_gate(fault_gate_entry(handler, selector)) == handler as u64,
        selector_of_gate(fault_gate_entry(handler, selector)) == selector as u64,
        fault_gate_entry(handler, selector) != 0,
{
}

/// The default gate table: all 256 vectors absent except vector 13, the
/// general-protection fault, which gets a present ring-0 interrupt gate
/// pointing at `handler` through `code_selector`.
pub fn default_gates(code_selector: u16, handler: u32) -> (r: [Entry; 256])
    ensures
        r@[13]@ == fault_gate_entry(handler, code_selector),
        is_present(r@[13]@),
        type_of_gate(r@[13]@) == 0xE,
        dpl_of(r@[13]@) == 0,
        offset_of_gate(r@[13]@) == handler as u64,
        selector_of_gate(r@[13]@) == code_selector as u64,
        r@[13]@ != 0,
        forall|i: int| 0 <= i < 256 && i != 13 ==> r@[i]@ == 0,
{
    let mut gates = [Entry::new(); 256];
    gates[13] = Entry::new().set_offset(handler).set_selector(code_selector).set_p(true).set_dpl(
        u2::V00,
    ).set_type(GateType::Interrupt);
    proof {
        lemma_fault_gate_fields(handler, code_selector);
    }
    gates
}

/// The table pointer for a gate table of `len` entries at linear address
/// `base`. The interrupt-table convention stores the byte length minus one (the
/// last valid byte offset) in `size` — unlike the segment table's raw
/// length, and the asymmetry is CPU-mandated.
pub fn table_pointer(len: usize, base: u32) -> (r: Descriptor)
    requires
        1 <= len,
        8 * len <= 0x10000,
    ensures
        r.size == 8 * len - 1,
        r.offset == base,
{
    Descriptor { size: (len * 8 - 1) as u16, offset: base }
}

} // verus!
