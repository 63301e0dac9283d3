//! A BBC Micro Model B hardware simulation: a 6502 CPU core with its
//! instruction set, the 6522 Versatile Interface Adapter state machine,
//! the 6845 CRT controller's vertical sync, the keyboard matrix, the
//! IC32 addressable latch, and the memory-bus dispatch that connects them.

pub mod alu;
pub mod cpu;
pub mod devices;
pub mod disassemble;
pub mod dispatch;
pub mod ic32;
pub mod mc6845;
pub mod mos6522;
pub mod keyboard;
pub mod instructions;
pub mod memory;
pub mod ram;
pub mod system_via;
pub mod registers;
