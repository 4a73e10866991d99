//! The first serial console driver; kept alongside its successor
//! [`crate::io::serial`]. Both bring the UART up with the same register
//! protocol, so this one's contract is stated over the same traces.

use vstd::prelude::*;

use crate::arch::ports::IoLog;
use crate::io::serial::init_trace;
use crate::io::serial::LOOPBACK_TEST_BYTE;

verus! {

/// The conventional port of the first serial line.
pub const PORT_COM1: u16 = 0x3F8;

/// A serial console over the UART at `port`.
#[derive(Debug)]
pub struct Console {
    pub port: u16,
}

impl Console {
    /// A console over `port` with no device setup performed; for a UART some
    /// earlier code already brought up.
    pub fn new_uninit(port: u16) -> (r: Self)
        ensures
            r.port == port,
    {
        Console { port }
    }

    /// Brings the UART at `port` up and self-tests it, with the same
    /// transaction sequence as [`crate::io::serial::Console::try_new`];
    /// `loopback` is the byte the chip answers in loopback mode.
    pub fn new(port: u16, log: &mut IoLog, loopback: u8) -> (r: Result<Self, ()>)
        requires
            port + 5 <= u16::MAX,
        ensures
            final(log)@ == old(log)@ + init_trace(port, loopback),
            r is Ok <==> loopback == LOOPBACK_TEST_BYTE,
            r matches Ok(c) ==> c.port == port,
    {
        match crate::io::serial::Console::try_new(port, log, loopback) {
            Ok(c) => Ok(Console { port: c.port() }),
            Err(()) => Err(()),
        }
    }
}

} // verus!
