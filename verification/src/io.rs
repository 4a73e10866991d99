//! Console drivers and the byte-sink capability they share.

pub mod serial;
pub mod vga;

use vstd::prelude::*;

verus! {

/// Anything that accepts bytes: the output sink the bring-up path reports
/// through, both on the normal path and from fault handling.
pub trait WriteBytes {
    /// Accepts one byte.
    fn write_byte(&mut self, byte: u8);

    /// Accepts a sequence of bytes, one at a time, in order.
    fn write_bytes(&mut self, bytes: &[u8]) {
        let mut i: usize = 0;
        while i < bytes.len()
            decreases bytes.len() - i,
        {
            self.write_byte(bytes[i]);
            i = i + 1;
        }
    }
}

} // verus!
