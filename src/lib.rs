//! Core of a bare-metal kernel for an ARM single-board computer: the
//! memory-mapped register addresses, the interrupt-masking lock that guards
//! singleton hardware state, and the mailbox property protocol used to talk
//! to the board's firmware co-processor.
//!
//! The library computes and decides; loads and stores to hardware registers,
//! and the masking of interrupts, are left to its caller.

pub mod addr;
pub mod color;
pub mod cpu;
pub mod device_tree;
pub mod draw;
pub mod error;
pub mod fdt;
pub mod framebuffer;
pub mod framebuffer_console;
pub mod gpio;
pub mod mailbox;
pub mod mutex;
pub mod uart;
