//! The port-I/O primitive.
//!
//! A port transaction is a synchronous byte moved between the CPU and a
//! device register. The instructions themselves cannot run under
//! verification, so the primitive is modeled by its observable effect: every
//! routine appends the transactions it performs, in order, to an [`IoLog`],
//! and its contract states that trace exactly. A read takes the byte the
//! device answers as an argument, so everything proved downstream holds for
//! every value the hardware may return. The unverified boot shell replays a
//! routine's trace with the real `in`/`out` instructions.

use vstd::prelude::*;

verus! {

/// One transaction on the port bus: a byte written to a port, or a byte read
/// from a port together with the value the device returned.
#[derive(Clone, Copy, Debug, PartialEq, Eq, Structural)]
pub enum IoOp {
    Out { port: u16, value: u8 },
    In { port: u16, value: u8 },
}

/// The ordered trace of port transactions a bring-up routine performs.
pub struct IoLog {
    ops: Vec<IoOp>,
}

impl View for IoLog {
    type V = Seq<IoOp>;

    closed spec fn view(&self) -> Seq<IoOp> {
        self.ops@
    }
}

impl IoLog {
    /// An empty trace; the boot path starts from one.
    pub fn new() -> (r: IoLog)
        ensures
            r@ == Seq::<IoOp>::empty(),
    {
        IoLog { ops: Vec::new() }
    }

    pub fn len(&self) -> (r: usize)
        ensures
            r == self@.len(),
    {
        self.ops.len()
    }

    pub fn get(&self, i: usize) -> (r: IoOp)
        requires
            i < self@.len(),
        ensures
            r == self@[i as int],
    {
        self.ops[i]
    }

    fn push(&mut self, op: IoOp)
        ensures
            final(self)@ == old(self)@.push(op),
    {
        self.ops.push(op);
    }
}

/// Port 0x80 is unused after boot; a write to it only costs bus time and is
/// the delay target of [`wait`] and [`Port::slow_out_u8`].
pub const UNUSED_PORT: u16 = 0x80;

/// A single I/O port, addressed by its 16-bit number; its view is that
/// number.
#[derive(Clone, Copy, Debug)]
pub struct Port(u16);

impl View for Port {
    type V = u16;

    closed spec fn view(&self) -> u16 {
        self.0
    }
}

impl Port {
    pub fn new(port: u16) -> (r: Port)
        ensures
            r@ == port,
    {
        Port(port)
    }

    /// The port's number on the bus.
    pub fn number(&self) -> (r: u16)
        ensures
            r == self@,
    {
        self.0
    }

    /// The port at a fixed offset from this one, modeling a register bank.
    pub fn add(&self, offset: u16) -> (r: Port)
        requires
            self@ + offset <= u16::MAX,
        ensures
            r@ == self@ + offset,
    {
        Port(self.0 + offset)
    }

    /// Writes one byte to the port.
    pub fn out_u8(&self, log: &mut IoLog, val: u8)
        ensures
            final(log)@ == old(log)@.push(IoOp::Out { port: self@, value: val }),
    {
        log.push(IoOp::Out { port: self.0, value: val });
    }

    /// Reads one byte from the port. `device_byte` is the value the device
    /// answers; the caller of the whole boot path supplies it, so the
    /// contract holds whatever the hardware returns.
    pub fn in_u8(&self, log: &mut IoLog, device_byte: u8) -> (r: u8)
        ensures
            r == device_byte,
            final(log)@ == old(log)@.push(IoOp::In { port: self@, value: device_byte }),
    {
        log.push(IoOp::In { port: self.0, value: device_byte });
        device_byte
    }

    /// Writes one byte, then forces a bus delay with a discard write to
    /// [`UNUSED_PORT`]; for devices that cannot take back-to-back writes.
    pub fn slow_out_u8(&self, log: &mut IoLog, val: u8)
        ensures
            final(log)@ == old(log)@.push(IoOp::Out { port: self@, value: val }).push(
                IoOp::Out { port: UNUSED_PORT, value: 0 },
            ),
    {
        self.out_u8(log, val);
        wait(log);
    }
}

/// Forces a bus delay: one discard write to [`UNUSED_PORT`].
pub fn wait(log: &mut IoLog)
    ensures
        final(log)@ == old(log)@.push(IoOp::Out { port: UNUSED_PORT, value: 0 }),
{
    Port::new(UNUSED_PORT).out_u8(log, 0);
}

} // verus!
