//! Narrow integer values.

use vstd::prelude::*;

verus! {

/// A two-bit value. Descriptors and selectors carry the privilege level in
/// two bits: 0 (most trusted) to 3 (least).
#[allow(non_camel_case_types)]
#[derive(Clone, Copy, Debug, PartialEq, Eq, Structural)]
pub enum u2 {
    V00,
    V01,
    V10,
    V11,
}

impl u2 {
    /// The numeric value, 0 to 3.
    pub open spec fn spec_value(self) -> u8 {
        match self {
            u2::V00 => 0,
            u2::V01 => 1,
            u2::V10 => 2,
            u2::V11 => 3,
        }
    }

    /// The numeric value, 0 to 3.
    #[verifier::when_used_as_spec(spec_value)]
    pub fn value(self) -> (r: u8)
        ensures
            r == self.spec_value(),
            r < 4,
    {
        match self {
            u2::V00 => 0,
            u2::V01 => 1,
            u2::V10 => 2,
            u2::V11 => 3,
        }
    }
}

/// `v` with the bit at `offset` set to `bit`.
pub open spec fn with_bit(v: u64, offset: u64, bit: bool) -> u64 {
    if bit {
        v | (1u64 << offset)
    } else {
        v & !(1u64 << offset)
    }
}

/// `v` with the `len`-bit field at `offset` replaced by `bits`; the caller
/// supplies `bits` already truncated to `len` bits.
pub open spec fn with_bits(v: u64, offset: u64, bits: u64, len: u64) -> u64 {
    (v & !((((1u64 << len) - 1) as u64) << offset)) | (bits << offset)
}

} // verus!
