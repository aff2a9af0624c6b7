//! The CPU: a register file and the 256-entry catalog of executor
//! bindings, stepped one instruction at a time.

use vstd::prelude::*;

use crate::cpu_registers::CPURegisters;
use crate::instructions::arithmetic::outcome_matches;
use crate::instructions::utils::{InstructionData, InstructionError};
use crate::instructions::{
    bind_instruction, execute_instruction, is_conditional_opcode, spec_bind, spec_step, Instruction,
};
use crate::memory::{mem_read, Memory};

verus! {

/// Whether a catalog is fit to drive the step function: 256 entries,
/// each one to three bytes long with one or two cycle counts, and a
/// second cycle count wherever the opcode is a conditional branch.
pub open spec fn spec_catalog_valid(data: Seq<InstructionData>) -> bool {
    &&& data.len() == 256
    &&& forall|i: int| 0 <= i < 256 ==> (#[trigger] data[i]).wf()
    &&& forall|i: int|
        0 <= i < 256 && is_conditional_opcode(i as u8) ==> (#[trigger] data[i]).cycles@.len() == 2
}

/// Whether one opcode is a conditional branch; see
/// [`is_conditional_opcode`].
pub fn check_conditional_opcode(opcode: u8) -> (r: bool)
    ensures
        r == is_conditional_opcode(opcode),
{
    opcode == 0x20 || opcode == 0x28 || opcode == 0x30 || opcode == 0x38 || opcode == 0xC0
        || opcode == 0xC2 || opcode == 0xC4 || opcode == 0xC8 || opcode == 0xCA || opcode == 0xCC
        || opcode == 0xD0 || opcode == 0xD2 || opcode == 0xD4 || opcode == 0xD8 || opcode == 0xDA
        || opcode == 0xDC
}

/// The register file and the bound catalog.
pub struct CPU {
    pub registers: CPURegisters,
    pub instructions: Vec<Instruction>,
}

impl CPU {
    /// A loaded CPU: the flag invariant holds and the catalog is full
    /// and valid.
    pub open spec fn wf(&self) -> bool {
        &&& self.registers.wf()
        &&& self.instructions@.len() == 256
        &&& forall|i: int| 0 <= i < 256 ==> (#[trigger] self.instructions@[i]).data.wf()
        &&& forall|i: int|
            0 <= i < 256 && is_conditional_opcode(i as u8) ==> (
            #[trigger] self.instructions@[i]).data.cycles@.len() == 2
    }

    /// Validates a catalog and binds each entry to its executor; on an
    /// invalid catalog nothing changes and false comes back.
    #[verifier::loop_isolation(false)]
    pub fn load_instructions(&mut self, data: Vec<InstructionData>) -> (r: bool)
        ensures
            r == spec_catalog_valid(data@),
            final(self).registers == old(self).registers,
            !r ==> final(self).instructions == old(self).instructions,
            r ==> final(self).instructions@.len() == 256,
            r ==> forall|i: int|
                0 <= i < 256 ==> (#[trigger] final(self).instructions@[i]).data == data@[i]
                    && final(self).instructions@[i].func == spec_bind(data@[i].mnemonic@),
            r && old(self).registers.wf() ==> final(self).wf(),
    {
        if data.len() != 256 {
            return false;
        }
        let mut remaining = data;
        let ghost orig: Seq<InstructionData> = remaining@;
        proof {
            assert(orig == data@);
        }
        let mut built: Vec<Instruction> = Vec::new();
        while built.len() < 256
            invariant
                built@.len() + remaining@.len() == 256,
                remaining@ =~= orig.subrange(built@.len() as int, 256),
                orig.len() == 256,
                forall|j: int|
                    0 <= j < built@.len() ==> (#[trigger] built@[j]).data == orig[j]
                        && built@[j].func == spec_bind(orig[j].mnemonic@),
                forall|j: int| 0 <= j < built@.len() ==> (#[trigger] built@[j]).data.wf(),
                forall|j: int|
                    0 <= j < built@.len() && is_conditional_opcode(j as u8) ==> (
                    #[trigger] built@[j]).data.cycles@.len() == 2,
            decreases 256 - built.len(),
        {
            let ghost k: int = built@.len() as int;
            let entry = remaining.remove(0);
            let opcode: u8 = (built.len() % 256) as u8;
            proof {
                assert(entry == orig[k]);
            }
            if !(1 <= entry.bytes && entry.bytes <= 3) {
                proof {
                    assert(data@[k] == orig[k]);
                    assert(!data@[k].wf());
                }
                return false;
            }
            if !(1 <= entry.cycles.len() && entry.cycles.len() <= 2) {
                proof {
                    assert(data@[k] == orig[k]);
                    assert(!data@[k].wf());
                }
                return false;
            }
            if check_conditional_opcode(opcode) && entry.cycles.len() != 2 {
                proof {
                    assert(data@[k] == orig[k]);
                    assert(is_conditional_opcode(k as u8) && data@[k].cycles@.len() != 2);
                }
                return false;
            }
            built.push(bind_instruction(entry));
        }
        proof {
            assert forall|i: int| 0 <= i < 256 implies (#[trigger] data@[i]).wf() by {
                assert(built@[i].data == orig[i]);
                assert(data@[i] == orig[i]);
            }
            assert forall|i: int|
                0 <= i < 256 && is_conditional_opcode(i as u8) implies (
            #[trigger] data@[i]).cycles@.len() == 2 by {
                assert(built@[i].data == orig[i]);
                assert(data@[i] == orig[i]);
            }
        }
        self.instructions = built;
        true
    }

    /// Runs the instruction at PC: fetches the opcode byte, looks up its
    /// catalog entry, and steps the core once, returning the
    /// machine-cycle count. Exactly [`spec_step`] for the entry the
    /// opcode at PC picks; an error leaves the state untouched.
    pub fn execute(&mut self, memory: &mut Memory) -> (r: Result<u8, InstructionError>)
        requires
            old(self).wf(),
            old(memory).wf(),
        ensures
            final(self).wf(),
            final(memory).wf(),
            final(self).instructions == old(self).instructions,
            ({
                let opcode = mem_read(old(memory)@, old(self).registers.pc);
                let entry = old(self).instructions@[opcode as int];
                outcome_matches(
                    spec_step(
                        entry.func,
                        entry.data.bytes,
                        entry.data.cycles@,
                        old(self).registers,
                        old(memory)@,
                    ),
                    r,
                    old(self).registers,
                    final(self).registers,
                    old(memory)@,
                    final(memory)@,
                )
            }),
    {
        let opcode = memory.read_u8(self.registers.pc);
        let instruction = &self.instructions[opcode as usize];
        execute_instruction(instruction, &mut self.registers, memory)
    }
}

impl Default for CPU {
    /// A zeroed register file and an empty catalog; the catalog must be
    /// loaded before the CPU can step.
    fn default() -> (r: Self)
        ensures
            r.registers == (CPURegisters {
                a: 0,
                b: 0,
                c: 0,
                d: 0,
                e: 0,
                f: 0,
                h: 0,
                l: 0,
                sp: 0,
                pc: 0,
            }),
            r.instructions@.len() == 0,
    {
        CPU { registers: CPURegisters::new(), instructions: Vec::new() }
    }
}

} // verus!
