//! Architecture-specific bring-up: descriptor tables, table pointers, the
//! interrupt controller, and the port-I/O primitive they are built on.

pub mod gdt;
pub mod idt;
pub mod ports;
pub mod tables;
