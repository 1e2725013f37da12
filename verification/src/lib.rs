//! The hardware-facing nucleus of a small kernel: the decisions of its
//! interrupt handlers and the model of its text console.

pub mod console;
pub mod interrupts;
pub mod vga_buffer;
