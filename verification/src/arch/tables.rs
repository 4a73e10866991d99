//! The table-pointer record the CPU's table-load instructions consume.

use vstd::prelude::*;

verus! {

/// The 6-byte operand of the table-load instructions: a 16-bit `size` field
/// followed by the 32-bit linear address of the table's first entry. The two
/// tables fill `size` differently: the segment table stores its raw byte
/// length, the interrupt table its byte length minus one; the builders in
/// [`crate::arch::gdt`] and [`crate::arch::idt`] each pin their convention.
#[derive(Clone, Copy, Debug, PartialEq, Eq, Structural)]
pub struct Descriptor {
    pub size: u16,
    pub offset: u32,
}

impl Descriptor {
    /// The exact six bytes the table-load instruction reads: the size
    /// little-endian, then the base little-endian, with no padding between
    /// them — the CPU-mandated layout, alignment 2.
    pub fn to_bytes(self) -> (r: [u8; 6])
        ensures
            r@[0] == (self.size & 0xFF) as u8,
            r@[1] == ((self.size >> 8) & 0xFF) as u8,
            r@[2] == (self.offset & 0xFF) as u8,
            r@[3] == ((self.offset >> 8) & 0xFF) as u8,
            r@[4] == ((self.offset >> 16) & 0xFF) as u8,
            r@[5] == ((self.offset >> 24) & 0xFF) as u8,
    {
        [
            (self.size & 0xFF) as u8,
            ((self.size >> 8) & 0xFF) as u8,
            (self.offset & 0xFF) as u8,
            ((self.offset >> 8) & 0xFF) as u8,
            ((self.offset >> 16) & 0xFF) as u8,
            ((self.offset >> 24) & 0xFF) as u8,
        ]
    }
}

/// The six bytes lose nothing: size and base recompose from them exactly,
/// so the byte layout carries the whole record.
pub proof fn lemma_pointer_bytes_recompose(size: u16, offset: u32)
    by (bit_vector)
    ensures
        ((size & 0xFF) as u16) | (((size >> 8) & 0xFF) as u16) << 8 == size,
        (offset & 0xFF) | ((offset >> 8) & 0xFF) << 8 | ((offset >> 16) & 0xFF) << 16 | ((offset
            >> 24) & 0xFF) << 24 == offset,
{
}

} // verus!
