//! Memory-map records reported by the boot loader.

use vstd::prelude::*;

verus! {

/// The kind of one reported physical-memory range, by its numeric code in
/// the loader's record: available RAM is 1, the others follow in order.
#[derive(Clone, Copy, Debug, PartialEq, Eq, Structural)]
pub enum MmapType {
    Available,
    Reserved,
    AcpiReclaimable,
    Nvs,
    Badram,
}

impl MmapType {
    /// The numeric code the loader's record carries for this kind.
    pub open spec fn spec_code(self) -> u32 {
        match self {
            MmapType::Available => 1,
            MmapType::Reserved => 2,
            MmapType::AcpiReclaimable => 3,
            MmapType::Nvs => 4,
            MmapType::Badram => 5,
        }
    }

    /// The numeric code the loader's record carries for this kind.
    #[verifier::when_used_as_spec(spec_code)]
    pub fn code(self) -> (r: u32)
        ensures
            r == self.spec_code(),
    {
        match self {
            MmapType::Available => 1,
            MmapType::Reserved => 2,
            MmapType::AcpiReclaimable => 3,
            MmapType::Nvs => 4,
            MmapType::Badram => 5,
        }
    }
}

/// One physical-memory range of the loader's memory map: its record size,
/// start address, byte length and kind.
#[derive(Clone, Copy, Debug)]
pub struct Mmap {
    pub size: u32,
    pub addr: u64,
    pub len: u64,
    pub typ: MmapType,
}

} // verus!
