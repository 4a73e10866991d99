//! Hardware bring-up core of a small x86 kernel.
//!
//! The library covers the boot path from loader handoff to a machine with
//! protected-mode segmentation and interrupt dispatch under kernel control:
//! bit-exact construction of the Global and Interrupt Descriptor Tables, the
//! 6-byte table pointers the CPU's load instructions consume, the command
//! sequence that reprograms the legacy interrupt controller, the serial and
//! text-mode console drivers, the one-time-initialization cell that publishes
//! hardware singletons, and the multiboot information record handed over by
//! the boot loader.
//!
//! Everything the CPU reads is a plain value here, and every routine carries a
//! contract that pins its result down to the bit. Hardware effects are split
//! off: a routine that talks to a device appends the exact port transactions
//! it performs to an [`arch::ports::IoLog`], and an unverified shell around
//! the library replays such traces with the real instructions.

pub mod arch;
pub mod io;
pub mod lazy;
pub mod mem;
pub mod multiboot;
pub mod serial;
pub mod utils;
pub mod vga;
