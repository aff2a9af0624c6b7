//! The emulator: a CPU, a memory map and a cartridge, assembled by a
//! builder and stepped by the host loop.

use vstd::prelude::*;

use crate::cart::Cart;
use crate::cpu::{spec_catalog_valid, CPU};
use crate::instructions::arithmetic::outcome_matches;
use crate::instructions::spec_step;
use crate::instructions::utils::{InstructionData, InstructionError};
use crate::memory::{mem_read, Memory};

verus! {

/// What the host loop should do after polling its surroundings: carry
/// on, or shut down.
#[derive(Clone, Copy, Debug, PartialEq, Eq, Structural)]
pub enum UpdateEvent {
    Continue,
    Stop,
}

/// A CPU, its memory map and the loaded cartridge.
pub struct Emulator {
    pub memory: Memory,
    pub cart: Cart,
    pub cpu: CPU,
}

impl Emulator {
    /// A runnable emulator: the CPU is loaded and the memory map is
    /// fully backed.
    pub open spec fn wf(&self) -> bool {
        &&& self.cpu.wf()
        &&& self.memory.wf()
    }

    /// Steps the CPU by one instruction against the emulator's memory,
    /// returning the machine-cycle count, or the error for an opcode
    /// outside the implemented families. An error leaves the emulator
    /// untouched.
    pub fn update(&mut self) -> (r: Result<u8, InstructionError>)
        requires
            old(self).wf(),
        ensures
            final(self).wf(),
            final(self).cpu.instructions == old(self).cpu.instructions,
            ({
                let opcode = mem_read(old(self).memory@, old(self).cpu.registers.pc);
                let entry = old(self).cpu.instructions@[opcode as int];
                outcome_matches(
                    spec_step(
                        entry.func,
                        entry.data.bytes,
                        entry.data.cycles@,
                        old(self).cpu.registers,
                        old(self).memory@,
                    ),
                    r,
                    old(self).cpu.registers,
                    final(self).cpu.registers,
                    old(self).memory@,
                    final(self).memory@,
                )
            }),
    {
        self.cpu.execute(&mut self.memory)
    }
}

/// Assembles an emulator: a cartridge image, a zeroed memory map with
/// the first ROM bank copied in, and a CPU loaded from a catalog.
pub struct EmulatorBuilder {
    pub cart: Cart,
    pub memory: Memory,
    pub cpu: CPU,
}

impl EmulatorBuilder {
    /// An empty builder: no cartridge, zeroed memory, unloaded CPU.
    pub fn new() -> (r: EmulatorBuilder)
        ensures
            r.memory.wf(),
            r.cpu.registers.wf(),
            r.cart.spec_bytes().len() == 0,
    {
        EmulatorBuilder { cart: Cart::default(), memory: Memory::new(), cpu: CPU::default() }
    }

    /// Takes a ROM image, keeps it as the cartridge, and copies its
    /// first 16 KiB bank over the bottom of the memory map.
    pub fn cart(self, rom: Vec<u8>) -> (r: EmulatorBuilder)
        requires
            self.memory.wf(),
            rom@.len() >= 0x4000,
        ensures
            r.cart.spec_bytes() == rom@,
            r.cpu == self.cpu,
            r.memory.wf(),
            forall|i: int| 0 <= i < 0x4000 ==> r.memory@[i] == rom@[i],
            forall|i: int| 0x4000 <= i < 0x10000 ==> r.memory@[i] == self.memory@[i],
    {
        let mut memory = self.memory;
        let cart = Cart::from_bytes(rom);
        let bank = cart.get_bank(0);
        memory.load_cart(&bank, 0);
        proof {
            assert forall|i: int| 0 <= i < 0x4000 implies memory@[i] == rom@[i] by {
                assert(memory@[0 + i] == bank.buf@[i]);
                assert(bank.buf@[i] == cart.spec_bytes()[0 + i]);
            }
        }
        EmulatorBuilder { cart, memory, cpu: self.cpu }
    }

    /// Loads the opcode catalog into the CPU and produces the emulator;
    /// nothing is produced when the catalog is invalid.
    pub fn build(self, catalog: Vec<InstructionData>) -> (r: Option<Emulator>)
        requires
            self.memory.wf(),
            self.cpu.registers.wf(),
        ensures
            r is Some <==> spec_catalog_valid(catalog@),
            r is Some ==> r->0.wf(),
            r is Some ==> r->0.cpu.registers == self.cpu.registers,
            r is Some ==> r->0.memory@ == self.memory@,
            r is Some ==> r->0.cart.spec_bytes() == self.cart.spec_bytes(),
    {
        let mut cpu = self.cpu;
        if !cpu.load_instructions(catalog) {
            return None;
        }
        Some(Emulator { memory: self.memory, cart: self.cart, cpu })
    }
}

impl Default for EmulatorBuilder {
    /// Same as [`EmulatorBuilder::new`].
    fn default() -> (r: Self)
        ensures
            r.memory.wf(),
            r.cpu.registers.wf(),
            r.cart.spec_bytes().len() == 0,
    {
        EmulatorBuilder::new()
    }
}

} // verus!
