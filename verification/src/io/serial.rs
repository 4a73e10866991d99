//! The serial console driver.
//!
//! Bringing the UART up is a fixed write sequence — line control, baud
//! divisor, FIFO and modem setup — followed by a loopback self-test: the
//! driver sends one test byte through the chip and succeeds only if the same
//! byte comes back. The whole transaction sequence is pinned below; the byte
//! the chip answers is an argument, so the success and failure paths are both
//! verified against it.

use vstd::prelude::*;

use crate::arch::ports::IoLog;
use crate::arch::ports::IoOp;
use crate::arch::ports::Port;

verus! {

/// The conventional port of the first serial line.
pub const PORT_COM1: u16 = 0x3F8;

/// The byte sent through the chip in loopback mode; the chip passes the test
/// by answering it unchanged.
pub const LOOPBACK_TEST_BYTE: u8 = 0xAE;

/// The fixed setup writes for the UART at `port`: interrupts off, baud
/// divisor 3 (38400 baud), 8-bit frames without parity, FIFOs enabled and
/// cleared, modem lines raised, then loopback mode and the test byte.
pub open spec fn setup_trace(port: u16) -> Seq<IoOp> {
    seq![
        IoOp::Out { port: (port + 1) as u16, value: 0x00 },
        IoOp::Out { port: (port + 3) as u16, value: 0x80 },
        IoOp::Out { port: port, value: 0x03 },
        IoOp::Out { port: (port + 1) as u16, value: 0x00 },
        IoOp::Out { port: (port + 3) as u16, value: 0x03 },
        IoOp::Out { port: (port + 2) as u16, value: 0xC7 },
        IoOp::Out { port: (port + 4) as u16, value: 0x0B },
        IoOp::Out { port: (port + 4) as u16, value: 0x1E },
        IoOp::Out { port: port, value: LOOPBACK_TEST_BYTE },
    ]
}

/// The full initialization trace: the setup writes, the loopback answer
/// read back, and — only when the answer matches the test byte — the switch
/// to normal operation.
pub open spec fn init_trace(port: u16, loopback: u8) -> Seq<IoOp> {
    setup_trace(port) + seq![IoOp::In { port: port, value: loopback }] + (if loopback
        == LOOPBACK_TEST_BYTE {
        seq![IoOp::Out { port: (port + 4) as u16, value: 0x0F }]
    } else {
        Seq::<IoOp>::empty()
    })
}

/// A serial console over the UART at its port; the view is the port number.
#[derive(Debug)]
pub struct Console {
    port: Port,
}

impl View for Console {
    type V = u16;

    closed spec fn view(&self) -> u16 {
        self.port@
    }
}

impl Console {
    /// The register bank fits below the top of port space, so every register
    /// of the console's UART can be addressed.
    pub open spec fn wf(self) -> bool {
        self@ + 5 <= u16::MAX
    }

    /// A console over `port` with no device setup performed; for a UART
    /// some earlier code already brought up.
    pub fn new_uninit(port: u16) -> (r: Console)
        requires
            port + 5 <= u16::MAX,
        ensures
            r@ == port,
            r.wf(),
    {
        Console { port: Port::new(port) }
    }

    /// Brings the UART at `port` up and self-tests it. `loopback` is the
    /// byte the chip answers in loopback mode: the console comes up if and
    /// only if it echoes the test byte; a faulty chip is reported and left
    /// in loopback mode.
    pub fn try_new(port: u16, log: &mut IoLog, loopback: u8) -> (r: Result<Console, ()>)
        requires
            port + 5 <= u16::MAX,
        ensures
            final(log)@ == old(log)@ + init_trace(port, loopback),
            r is Ok <==> loopback == LOOPBACK_TEST_BYTE,
            r matches Ok(c) ==> c@ == port && c.wf(),
    {
        let p = Port::new(port);
        p.add(1).out_u8(log, 0x00);  // disable all interrupts
        p.add(3).out_u8(log, 0x80);  // enable DLAB (set baud rate divisor)
        p.add(0).out_u8(log, 0x03);  // set divisor to 3 (lo byte) 38400 baud
        p.add(1).out_u8(log, 0x00);  //                  (hi byte)
        p.add(3).out_u8(log, 0x03);  // 8 bits, no parity, one stop bit
        p.add(2).out_u8(log, 0xC7);  // enable FIFO, clear them, with 14-byte threshold
        p.add(4).out_u8(log, 0x0B);  // IRQs enabled, RTS/DSR set
        p.add(4).out_u8(log, 0x1E);  // set in loopback mode, test the serial chip
        p.add(0).out_u8(log, LOOPBACK_TEST_BYTE);

        // check if serial is faulty (i.e: not same byte as sent)
        if p.in_u8(log, loopback) != LOOPBACK_TEST_BYTE {
            proof {
                assert(log@ =~= old(log)@ + init_trace(port, loopback));
            }
            return Err(());
        }
        // If serial is not faulty set it in normal operation mode
        // (not-loopback with IRQs enabled and OUT#1 and OUT#2 bits enabled)
        p.add(4).out_u8(log, 0x0F);
        proof {
            assert(log@ =~= old(log)@ + init_trace(port, loopback));
        }
        Ok(Console { port: p })
    }

    /// Whether the line status register byte `lsr`, read from the UART, says
    /// the transmit buffer is empty. The shell polls this until it may hand
    /// the next byte to [`Port::out_u8`] on the data port.
    pub fn is_transmit_ready(&self, log: &mut IoLog, lsr: u8) -> (r: bool)
        requires
            self.wf(),
        ensures
            r == ((lsr & 0x20) != 0),
            final(log)@ == old(log)@.push(IoOp::In { port: (self@ + 5) as u16, value: lsr }),
    {
        self.port.add(5).in_u8(log, lsr) & 0x20 != 0
    }

    /// The port the console was brought up on.
    pub fn port(&self) -> (r: u16)
        ensures
            r == self@,
    {
        self.port.number()
    }
}

} // verus!
