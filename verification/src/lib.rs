//! A verified interpreter core for the Game Boy's SM83 (LR35902) CPU.
//!
//! The crate models the register file with its paired 16-bit views, a flat
//! 64 KiB memory map with echo-RAM mirroring, an opcode catalog bound to a
//! small set of instruction executors, and a step function that fetches,
//! decodes and executes one instruction at a time, reporting its
//! machine-cycle cost.

pub mod cart;
pub mod cpu;
pub mod cpu_registers;
pub mod emulator;
pub mod instructions;
pub mod laws;
pub mod memory;
