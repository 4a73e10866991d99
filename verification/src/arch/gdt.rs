//! The Global Descriptor Table: segment descriptors, selectors, the default
//! flat table, and the table pointer the load instruction consumes.
//!
//! A segment descriptor is one 64-bit word whose field positions are fixed by
//! the CPU. Each setter is a value-to-value transform that replaces one field
//! and leaves every other bit alone; the spec functions below state the
//! transforms and the field extractions bit for bit.

use vstd::prelude::*;

use crate::arch::tables::Descriptor;
use crate::utils::bits::u2;
use crate::utils::bits::with_bit;
use crate::utils::bits::with_bits;

verus! {

/// `v` with the 20-bit limit field replaced by the low 20 bits of `limit`;
/// the limit sits in bits 0-15 and 48-51.
pub open spec fn with_limit(v: u64, limit: u32) -> u64 {
    (v & !0x000F0000_0000FFFFu64) | ((limit as u64) & 0xF0000) << 32 | ((limit as u64) & 0x0FFFF)
}

/// `v` with the 32-bit base field replaced by `base`; the base sits in bits
/// 16-39 and 56-63.
pub open spec fn with_base(v: u64, base: u32) -> u64 {
    (v & !0xFF0000FF_FFFF0000u64) | ((base as u64) & 0xFF000000) << 32 | ((base as u64)
        & 0x00FFFFFF) << 16
}

/// The 20-bit limit field of a descriptor.
pub open spec fn limit_of(v: u64) -> u64 {
    (v & 0xFFFF) | (((v >> 48) & 0xF) << 16)
}

/// The 32-bit base field of a descriptor.
pub open spec fn base_of(v: u64) -> u64 {
    ((v >> 16) & 0x00FF_FFFF) | (((v >> 56) & 0xFF) << 24)
}

/// Whether the present bit (47) is set.
pub open spec fn is_present(v: u64) -> bool {
    v & (1u64 << 47) != 0
}

/// The two privilege-level bits (45-46).
pub open spec fn dpl_of(v: u64) -> u64 {
    (v >> 45) & 0b11
}

/// The high flags nibble (bits 52-55): granularity, default size, long mode.
pub open spec fn flags_of(v: u64) -> u8 {
    ((v >> 52) & 0x0F) as u8
}

/// The access byte (bits 40-47).
pub open spec fn access_byte_of(v: u64) -> u8 {
    ((v >> 40) & 0xFF) as u8
}

/// Encoding then extracting the limit returns the limit truncated to its
/// 20-bit field width, and leaves the base field untouched.
pub proof fn lemma_limit_roundtrip(v: u64, limit: u32)
    by (bit_vector)
    ensures
        limit_of(with_limit(v, limit)) == (limit & 0xFFFFF) as u64,
        base_of(with_limit(v, limit)) == base_of(v),
{
}

/// Encoding then extracting the base returns the base exactly (its field is
/// the full 32 bits wide), and leaves the limit field untouched.
pub proof fn lemma_base_roundtrip(v: u64, base: u32)
    by (bit_vector)
    ensures
        base_of(with_base(v, base)) == base as u64,
        limit_of(with_base(v, base)) == limit_of(v),
{
}

/// The selector for table entry `index`, with `ti` choosing the local table
/// and `dpl` the requested privilege: privilege in bits 0-1, table indicator
/// in bit 2, index (truncated to 13 bits) in bits 3-15.
pub fn selector(index: u16, ti: bool, dpl: u2) -> (r: u16)
    ensures
        r == (dpl.spec_value() as u16) | ((if ti { 1u16 } else { 0u16 }) << 2) | ((index & 0x1FFF)
            << 3),
        r & 0b11 == dpl.spec_value() as u16,
        (r >> 2) & 1 == (if ti { 1u16 } else { 0u16 }),
        r >> 3 == index & 0x1FFF,
        index < 8192 ==> r >> 3 == index,
{
    let t: u16 = if ti { 1 } else { 0 };
    let d: u16 = dpl.value() as u16;
    let r = d | (t << 2) | ((index & 0x1FFF) << 3);
    proof {
        lemma_selector_bits(index, t, d);
    }
    r
}

proof fn lemma_selector_bits(index: u16, t: u16, d: u16)
    by (bit_vector)
    requires
        d < 4,
        t < 2,
    ensures
        (d | (t << 2) | ((index & 0x1FFF) << 3)) & 0b11 == d,
        ((d | (t << 2) | ((index & 0x1FFF) << 3)) >> 2) & 1 == t,
        (d | (t << 2) | ((index & 0x1FFF) << 3)) >> 3 == index & 0x1FFF,
        index < 8192 ==> index & 0x1FFF == index,
{
}

/// The widths of the two multi-bit fields, as shift expressions.
proof fn lemma_small_field_widths()
    by (bit_vector)
    ensures
        (1u64 << 2u64) == 4,
        (1u64 << 4u64) == 16,
{
}

/// One segment descriptor; its view is the 64-bit word the CPU reads.
#[derive(Clone, Copy, Debug)]
pub struct Entry(u64);

impl View for Entry {
    type V = u64;

    closed spec fn view(&self) -> u64 {
        self.0
    }
}

/// The type field values of a system segment (S clear).
#[derive(Clone, Copy, Debug)]
pub enum SystemSegmentType {
    Ldt,
    TssAvailable,
    TssBusy,
}

impl SystemSegmentType {
    /// The 4-bit encoding of the segment type.
    pub open spec fn spec_value(self) -> u8 {
        match self {
            SystemSegmentType::Ldt => 0x2,
            SystemSegmentType::TssAvailable => 0x9,
            SystemSegmentType::TssBusy => 0xB,
        }
    }

    /// The 4-bit encoding of the segment type.
    #[verifier::when_used_as_spec(spec_value)]
    pub fn value(self) -> (r: u8)
        ensures
            r == self.spec_value(),
            r < 16,
    {
        match self {
            SystemSegmentType::Ldt => 0x2,
            SystemSegmentType::TssAvailable => 0x9,
            SystemSegmentType::TssBusy => 0xB,
        }
    }
}

impl Entry {
    /// The null descriptor; the table's first entry must stay this value.
    pub fn new() -> (r: Self)
        ensures
            r@ == 0,
    {
        Entry(0)
    }

    /// The 64-bit word as the CPU will read it.
    pub fn value(self) -> (r: u64)
        ensures
            r == self@,
    {
        self.0
    }

    fn set_bit(self, offset: u64, bit: bool) -> (r: Self)
        requires
            offset < 64,
        ensures
            r@ == with_bit(self@, offset, bit),
    {
        let mask = 1u64 << offset;
        if bit {
            Entry(self.0 | mask)
        } else {
            Entry(self.0 & !mask)
        }
    }

    fn set_bits(self, offset: u64, bits: u64, len: u64) -> (r: Self)
        requires
            offset < 64,
            len < 64,
            bits < (1u64 << len),
        ensures
            r@ == with_bits(self@, offset, bits, len),
    {
        let mask = ((1u64 << len) - 1) << offset;
        Entry((self.0 & !mask) | (bits << offset))
    }

    /// Replaces the 20-bit limit field; bits of `limit` above the field width
    /// are discarded.
    pub fn set_limit(self, limit: u32) -> (r: Self)
        ensures
            r@ == with_limit(self@, limit),
    {
        Entry(
            (self.0 & !0x000F0000_0000FFFF) | (limit as u64 & 0xF0000) << 32 | (limit as u64
                & 0x0FFFF),
        )
    }

    /// Replaces the 32-bit base field.
    pub fn set_base(self, base: u32) -> (r: Self)
        ensures
            r@ == with_base(self@, base),
    {
        Entry(
            (self.0 & !0xFF0000FF_FFFF0000) | (base as u64 & 0xFF000000) << 32 | (base as u64
                & 0x00FFFFFF) << 16,
        )
    }

    /// Sets the present bit (47).
    pub fn set_p(self, bit: bool) -> (r: Self)
        ensures
            r@ == with_bit(self@, 47, bit),
    {
        self.set_bit(47, bit)
    }

    /// Sets the two privilege-level bits (45-46).
    pub fn set_dpl(self, dpl: u2) -> (r: Self)
        ensures
            r@ == with_bits(self@, 45, dpl.spec_value() as u64, 2),
    {
        proof {
            lemma_small_field_widths();
        }
        self.set_bits(45, dpl.value() as u64, 2)
    }

    /// Sets the descriptor-type bit (44): set for code and data segments,
    /// clear for system segments.
    pub fn set_s(self, bit: bool) -> (r: Self)
        ensures
            r@ == with_bit(self@, 44, bit),
    {
        self.set_bit(44, bit)
    }

    /// Sets the executable bit (43).
    pub fn set_e(self, bit: bool) -> (r: Self)
        ensures
            r@ == with_bit(self@, 43, bit),
    {
        self.set_bit(43, bit)
    }

    /// Sets the direction/conforming bit (42).
    pub fn set_dc(self, bit: bool) -> (r: Self)
        ensures
            r@ == with_bit(self@, 42, bit),
    {
        self.set_bit(42, bit)
    }

    /// Sets the readable/writable bit (41).
    pub fn set_rw(self, bit: bool) -> (r: Self)
        ensures
            r@ == with_bit(self@, 41, bit),
    {
        self.set_bit(41, bit)
    }

    /// Sets the accessed bit (40).
    pub fn set_a(self, bit: bool) -> (r: Self)
        ensures
            r@ == with_bit(self@, 40, bit),
    {
        self.set_bit(40, bit)
    }

    /// Replaces the 4-bit type field (43-46) of a system segment.
    pub fn set_type(self, typ: SystemSegmentType) -> (r: Self)
        ensures
            r@ == with_bits(self@, 43, typ.spec_value() as u64, 4),
    {
        proof {
            lemma_small_field_widths();
        }
        self.set_bits(43, typ.value() as u64, 4)
    }

    /// Sets the granularity bit (55): clear for byte units, set for 4KiB
    /// units.
    pub fn set_g(self, bit: bool) -> (r: Self)
        ensures
            r@ == with_bit(self@, 55, bit),
    {
        self.set_bit(55, bit)
    }

    /// Sets the default-size bit (54): set for a 32-bit segment.
    pub fn set_db(self, bit: bool) -> (r: Self)
        ensures
            r@ == with_bit(self@, 54, bit),
    {
        self.set_bit(54, bit)
    }

    /// Sets the long-mode flag. In this design it writes bit 43, the same
    /// position as the executable bit: long mode is unused here and the
    /// collision is kept as designed rather than silently moved.
    pub fn set_l(self, bit: bool) -> (r: Self)
        ensures
            r@ == with_bit(self@, 43, bit),
    {
        self.set_bit(43, bit)
    }

    /// The high flags nibble, bits 52-55.
    pub fn get_flags(&self) -> (r: u8)
        ensures
            r == flags_of(self@),
    {
        ((self.0 >> 52) & 0x0F) as u8
    }

    /// The access byte, bits 40-47.
    pub fn get_access_byte(&self) -> (r: u8)
        ensures
            r == access_byte_of(self@),
    {
        ((self.0 >> 40) & 0xFF) as u8
    }
}

/// The kernel code descriptor of the default table: base 0, 4KiB-granular
/// 32-bit segment over a 2GiB window, ring 0, executable, readable, accessed.
pub open spec fn kernel_code_entry() -> u64 {
    with_bit(
        with_bit(
            with_bit(
                with_bit(
                    with_bit(
                        with_bit(
                            with_bit(
                                with_bits(
                                    with_bit(with_limit(with_base(0, 0), 0x7FFFF), 47, true),
                                    45,
                                    0,
                                    2,
                                ),
                                44,
                                true,
                            ),
                            43,
                            true,
                        ),
                        42,
                        false,
                    ),
                    41,
                    true,
                ),
                40,
                true,
            ),
            55,
            true,
        ),
        54,
        true,
    )
}

/// The kernel data descriptor: as the kernel code descriptor, with the
/// executable bit clear.
pub open spec fn kernel_data_entry() -> u64 {
    with_bit(
        with_bit(
            with_bit(
                with_bit(
                    with_bit(
                        with_bit(
                            with_bit(
                                with_bits(
                                    with_bit(with_limit(with_base(0, 0), 0x7FFFF), 47, true),
                                    45,
                                    0,
                                    2,
                                ),
                                44,
                                true,
                            ),
                            43,
                            false,
                        ),
                        42,
                        false,
                    ),
                    41,
                    true,
                ),
                40,
                true,
            ),
            55,
            true,
        ),
        54,
        true,
    )
}

/// The user code descriptor: as the kernel code descriptor — base 0, the
/// same 4KiB-granular 32-bit window, executable, readable, accessed — at
/// ring 3.
pub open spec fn user_code_entry() -> u64 {
    with_bit(
        with_bit(
            with_bit(
                with_bit(
                    with_bit(
                        with_bit(
                            with_bit(
                                with_bits(
                                    with_bit(with_limit(with_base(0, 0), 0x7FFFF), 47, true),
                                    45,
                                    3,
                                    2,
                                ),
                                44,
                                true,
                            ),
                            43,
                            true,
                        ),
                        42,
                        false,
                    ),
                    41,
                    true,
                ),
                40,
                true,
            ),
            55,
            true,
        ),
        54,
        true,
    )
}

/// The user data descriptor: as the user code descriptor, with the
/// executable bit clear.
pub open spec fn user_data_entry() -> u64 {
    with_bit(
        with_bit(
            with_bit(
                with_bit(
                    with_bit(
                        with_bit(
                            with_bit(
                                with_bits(
                                    with_bit(with_limit(with_base(0, 0), 0x7FFFF), 47, true),
                                    45,
                                    3,
                                    2,
                                ),
                                44,
                                true,
                            ),
                            43,
                            false,
                        ),
                        42,
                        false,
                    ),
                    41,
                    true,
                ),
                40,
                true,
            ),
            55,
            true,
        ),
        54,
        true,
    )
}

/// The concrete words the four default descriptors encode to, and that each
/// has its present bit set.
pub proof fn lemma_default_segment_values()
    by (bit_vector)
    ensures
        kernel_code_entry() == 0x00C7_9B00_0000_FFFF,
        kernel_data_entry() == 0x00C7_9300_0000_FFFF,
        user_code_entry() == 0x00C7_FB00_0000_FFFF,
        user_data_entry() == 0x00C7_F300_0000_FFFF,
        is_present(0x00C7_9B00_0000_FFFFu64),
        is_present(0x00C7_9300_0000_FFFFu64),
        is_present(0x00C7_FB00_0000_FFFFu64),
        is_present(0x00C7_F300_0000_FFFFu64),
{
}

/// The default flat segment table: the null descriptor, then kernel code,
/// kernel data, user code and user data, all with base 0 over the same
/// 4KiB-granular 32-bit window — ring 0 for the kernel pair, ring 3 for the
/// user pair, the code entries executable. Every entry after the null one is
/// present and non-zero.
pub fn default_segments() -> (r: [Entry; 5])
    ensures
        r@[0]@ == 0,
        r@[1]@ == kernel_code_entry(),
        r@[2]@ == kernel_data_entry(),
        r@[3]@ == user_code_entry(),
        r@[4]@ == user_data_entry(),
        kernel_code_entry() == 0x00C7_9B00_0000_FFFF,
        kernel_data_entry() == 0x00C7_9300_0000_FFFF,
        user_code_entry() == 0x00C7_FB00_0000_FFFF,
        user_data_entry() == 0x00C7_F300_0000_FFFF,
        forall|i: int| 1 <= i < 5 ==> is_present(r@[i]@) && r@[i]@ != 0,
{
    let null = Entry::new();
    let kernel_code = Entry::new()
        .set_base(0)
        .set_limit(0x80000 - 1)
        .set_p(true)
        .set_dpl(u2::V00)
        .set_s(true)
        .set_e(true)
        .set_dc(false)
        .set_rw(true)
        .set_a(true)
        .set_g(true)
        .set_db(true);
    let kernel_data = Entry::new()
        .set_base(0)
        .set_limit(0x80000 - 1)
        .set_p(true)
        .set_dpl(u2::V00)
        .set_s(true)
        .set_e(false)
        .set_dc(false)
        .set_rw(true)
        .set_a(true)
        .set_g(true)
        .set_db(true);
    let user_code = Entry::new()
        .set_base(0)
        .set_limit(0x80000 - 1)
        .set_p(true)
        .set_dpl(u2::V11)
        .set_s(true)
        .set_e(true)
        .set_dc(false)
        .set_rw(true)
        .set_a(true)
        .set_g(true)
        .set_db(true);
    let user_data = Entry::new()
        .set_base(0)
        .set_limit(0x80000 - 1)
        .set_p(true)
        .set_dpl(u2::V11)
        .set_s(true)
        .set_e(false)
        .set_dc(false)
        .set_rw(true)
        .set_a(true)
        .set_g(true)
        .set_db(true);
    proof {
        lemma_default_segment_values();
    }
    [null, kernel_code, kernel_data, user_code, user_data]
}

/// The table pointer for a segment table of `len` entries at linear address
/// `base`. The segment-table convention stores the raw byte length in
/// `size`; the interrupt table's differs, see [`crate::arch::idt::table_pointer`].
pub fn table_pointer(len: usize, base: u32) -> (r: Descriptor)
    requires
        8 * len <= u16::MAX,
    ensures
        r.size == 8 * len,
        r.offset == base,
{
    Descriptor { size: (len * 8) as u16, offset: base }
}

} // verus!
