//! Emulation core for an 8-bit handheld game console: register file,
//! memory-mapped address bus, instruction dispatcher, video timing unit
//! and interrupt controller, stepped in lock-step at instruction
//! granularity.

pub mod cpu;
pub mod cpu_cb;
pub mod emulator;
pub mod gpu;
pub mod interrupt;
pub mod keys;
pub mod memory;
pub mod registers;
pub mod rom;
pub mod sprite;
