//! Interpreter core for a handheld console built around an ARM7TDMI processor:
//! register file, program status words, memory map, barrel shifter, ALU and the
//! decoders for the 32-bit and 16-bit instruction sets.

pub mod cartridge;
pub mod cpu;
pub mod error;
pub mod instructions;
pub mod util;
pub mod memory;
pub mod model;
