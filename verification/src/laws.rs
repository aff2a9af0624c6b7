//! Laws of the step function, proved over [`spec_step`]: how PC moves
//! for non-branching instructions, which cycle count a step reports,
//! and that the flag register keeps its low nibble clear.

use vstd::prelude::*;

use crate::cpu_registers::CPURegisters;
use crate::instructions::jump::{spec_jump_operands, spec_wrap_add16};
use crate::instructions::stack::{spec_call_operands, spec_ret_operands};
use crate::instructions::utils::{spec_cond_holds, Condition, Ret};
use crate::instructions::{
    spec_immediate, spec_step, spec_step_arith, spec_step_call, spec_step_jump, spec_step_ld,
    spec_step_ncrement, spec_step_push_pop, spec_step_ret, Executor,
};
use crate::memory::mem_read;

verus! {

/// The branch condition the decoder attaches to an opcode under a given
/// executor binding, if any; every non-branching binding attaches none.
pub open spec fn spec_branch_condition(
    func: Executor,
    opcode: u8,
    value: Option<Ret>,
    regs: CPURegisters,
) -> Option<Condition> {
    match func {
        Executor::Jp | Executor::Jr => match spec_jump_operands(opcode, value, regs) {
            Ok(s) => s.1,
            Err(_) => None,
        },
        Executor::Ret => match spec_ret_operands(opcode, regs) {
            Ok(s) => s.1,
            Err(_) => None,
        },
        Executor::Call => match spec_call_operands(opcode, value, regs) {
            Ok(s) => s.1,
            Err(_) => None,
        },
        _ => None,
    }
}

proof fn lemma_pc_ld(
    opcode: u8,
    value: Option<Ret>,
    cycles: Seq<u8>,
    regs: CPURegisters,
    mem: Seq<u8>,
)
    ensures
        match spec_step_ld(opcode, value, cycles, regs, mem) {
            Ok(s) => s.0.pc == regs.pc,
            Err(_) => true,
        },
{
}

proof fn lemma_pc_arith(
    func: Executor,
    opcode: u8,
    value: Option<Ret>,
    cycles: Seq<u8>,
    regs: CPURegisters,
    mem: Seq<u8>,
)
    requires
        func == Executor::Add || func == Executor::Adc || func == Executor::Sub || func
            == Executor::Sbc || func == Executor::Xor || func == Executor::And || func
            == Executor::Or || func == Executor::Cp,
    ensures
        match spec_step_arith(func, opcode, value, cycles, regs, mem) {
            Ok(s) => s.0.pc == regs.pc,
            Err(_) => true,
        },
{
}

proof fn lemma_pc_ncrement(
    func: Executor,
    opcode: u8,
    cycles: Seq<u8>,
    regs: CPURegisters,
    mem: Seq<u8>,
)
    requires
        func == Executor::Inc || func == Executor::Dec,
    ensures
        match spec_step_ncrement(func, opcode, cycles, regs, mem) {
            Ok(s) => s.0.pc == regs.pc,
            Err(_) => true,
        },
{
}

proof fn lemma_pc_push_pop(opcode: u8, cycles: Seq<u8>, regs: CPURegisters, mem: Seq<u8>)
    ensures
        match spec_step_push_pop(opcode, cycles, regs, mem) {
            Ok(s) => s.0.pc == regs.pc,
            Err(_) => true,
        },
{
}

/// PC advance: for every non-branching instruction — every executor
/// binding outside JP, JR, RET/RETI and CALL — a successful step leaves
/// PC at the pre-step PC plus the catalog entry's byte count, wrapped
/// to 16 bits.
pub proof fn lemma_pc_advance(
    func: Executor,
    bytes: u8,
    cycles: Seq<u8>,
    regs: CPURegisters,
    mem: Seq<u8>,
)
    requires
        func != Executor::Jp,
        func != Executor::Jr,
        func != Executor::Ret,
        func != Executor::Call,
    ensures
        match spec_step(func, bytes, cycles, regs, mem) {
            Ok(s) => s.0.pc == spec_wrap_add16(regs.pc, bytes as u16),
            Err(_) => true,
        },
{
    let opcode = mem_read(mem, regs.pc);
    let value = spec_immediate(bytes, regs.pc, mem);
    let regs1 = CPURegisters { pc: spec_wrap_add16(regs.pc, bytes as u16), ..regs };
    match func {
        Executor::Ld => lemma_pc_ld(opcode, value, cycles, regs1, mem),
        Executor::Add | Executor::Adc | Executor::Sub | Executor::Sbc | Executor::Xor
        | Executor::And | Executor::Or | Executor::Cp => lemma_pc_arith(
            func,
            opcode,
            value,
            cycles,
            regs1,
            mem,
        ),
        Executor::Inc | Executor::Dec => lemma_pc_ncrement(func, opcode, cycles, regs1, mem),
        Executor::PushPop => lemma_pc_push_pop(opcode, cycles, regs1, mem),
        _ => {},
    }
}

proof fn lemma_cycles_ld(
    opcode: u8,
    value: Option<Ret>,
    cycles: Seq<u8>,
    regs: CPURegisters,
    mem: Seq<u8>,
)
    ensures
        match spec_step_ld(opcode, value, cycles, regs, mem) {
            Ok(s) => s.2 == cycles[0],
            Err(_) => true,
        },
{
}

proof fn lemma_cycles_arith(
    func: Executor,
    opcode: u8,
    value: Option<Ret>,
    cycles: Seq<u8>,
    regs: CPURegisters,
    mem: Seq<u8>,
)
    requires
        func == Executor::Add || func == Executor::Adc || func == Executor::Sub || func
            == Executor::Sbc || func == Executor::Xor || func == Executor::And || func
            == Executor::Or || func == Executor::Cp,
    ensures
        match spec_step_arith(func, opcode, value, cycles, regs, mem) {
            Ok(s) => s.2 == cycles[0],
            Err(_) => true,
        },
{
}

proof fn lemma_cycles_ncrement(
    func: Executor,
    opcode: u8,
    cycles: Seq<u8>,
    regs: CPURegisters,
    mem: Seq<u8>,
)
    requires
        func == Executor::Inc || func == Executor::Dec,
    ensures
        match spec_step_ncrement(func, opcode, cycles, regs, mem) {
            Ok(s) => s.2 == cycles[0],
            Err(_) => true,
        },
{
}

proof fn lemma_cycles_push_pop(opcode: u8, cycles: Seq<u8>, regs: CPURegisters, mem: Seq<u8>)
    ensures
        match spec_step_push_pop(opcode, cycles, regs, mem) {
            Ok(s) => s.2 == cycles[0],
            Err(_) => true,
        },
{
}

proof fn lemma_cycles_jump(
    func: Executor,
    opcode: u8,
    value: Option<Ret>,
    cycles: Seq<u8>,
    regs: CPURegisters,
    mem: Seq<u8>,
)
    requires
        func == Executor::Jp || func == Executor::Jr,
    ensures
        match spec_step_jump(func, opcode, value, cycles, regs, mem) {
            Ok(s) => s.2 == match spec_branch_condition(func, opcode, value, regs) {
                None => cycles[0],
                Some(c) => if spec_cond_holds(c, regs.f) {
                    cycles[0]
                } else {
                    cycles[1]
                },
            },
            Err(_) => true,
        },
{
}

proof fn lemma_cycles_ret(opcode: u8, cycles: Seq<u8>, regs: CPURegisters, mem: Seq<u8>)
    ensures
        match spec_step_ret(opcode, cycles, regs, mem) {
            Ok(s) => s.2 == match spec_branch_condition(
                Executor::Ret,
                opcode,
                None,
                regs,
            ) {
                None => cycles[0],
                Some(c) => if spec_cond_holds(c, regs.f) {
                    cycles[0]
                } else {
                    cycles[1]
                },
            },
            Err(_) => true,
        },
{
}

proof fn lemma_cycles_call(
    opcode: u8,
    value: Option<Ret>,
    cycles: Seq<u8>,
    regs: CPURegisters,
    mem: Seq<u8>,
)
    ensures
        match spec_step_call(opcode, value, cycles, regs, mem) {
            Ok(s) => s.2 == match spec_branch_condition(Executor::Call, opcode, value, regs) {
                None => cycles[0],
                Some(c) => if spec_cond_holds(c, regs.f) {
                    cycles[0]
                } else {
                    cycles[1]
                },
            },
            Err(_) => true,
        },
{
}

/// Cycle return: a successful step reports the catalog entry's first
/// cycle count, except a conditional branch whose condition fails on
/// the pre-step flag byte, which reports the second. The condition is
/// the one [`spec_branch_condition`] attaches to the fetched opcode;
/// non-conditional instructions carry none.
pub proof fn lemma_cycle_return(
    func: Executor,
    bytes: u8,
    cycles: Seq<u8>,
    regs: CPURegisters,
    mem: Seq<u8>,
)
    ensures
        match spec_step(func, bytes, cycles, regs, mem) {
            Ok(s) => s.2 == match spec_branch_condition(
                func,
                mem_read(mem, regs.pc),
                spec_immediate(bytes, regs.pc, mem),
                CPURegisters { pc: spec_wrap_add16(regs.pc, bytes as u16), ..regs },
            ) {
                None => cycles[0],
                Some(c) => if spec_cond_holds(c, regs.f) {
                    cycles[0]
                } else {
                    cycles[1]
                },
            },
            Err(_) => true,
        },
{
    let opcode = mem_read(mem, regs.pc);
    let value = spec_immediate(bytes, regs.pc, mem);
    let regs1 = CPURegisters { pc: spec_wrap_add16(regs.pc, bytes as u16), ..regs };
    match func {
        Executor::Ld => lemma_cycles_ld(opcode, value, cycles, regs1, mem),
        Executor::Add | Executor::Adc | Executor::Sub | Executor::Sbc | Executor::Xor
        | Executor::And | Executor::Or | Executor::Cp => lemma_cycles_arith(
            func,
            opcode,
            value,
            cycles,
            regs1,
            mem,
        ),
        Executor::Inc | Executor::Dec => lemma_cycles_ncrement(func, opcode, cycles, regs1, mem),
        Executor::PushPop => lemma_cycles_push_pop(opcode, cycles, regs1, mem),
        Executor::Jp | Executor::Jr => lemma_cycles_jump(func, opcode, value, cycles, regs1, mem),
        Executor::Ret => lemma_cycles_ret(opcode, cycles, regs1, mem),
        Executor::Call => lemma_cycles_call(opcode, value, cycles, regs1, mem),
        _ => {},
    }
}

proof fn lemma_flags_ld(
    opcode: u8,
    value: Option<Ret>,
    cycles: Seq<u8>,
    regs: CPURegisters,
    mem: Seq<u8>,
)
    requires
        regs.wf(),
    ensures
        match spec_step_ld(opcode, value, cycles, regs, mem) {
            Ok(s) => s.0.wf(),
            Err(_) => true,
        },
{
}

proof fn lemma_flags_arith(
    func: Executor,
    opcode: u8,
    value: Option<Ret>,
    cycles: Seq<u8>,
    regs: CPURegisters,
    mem: Seq<u8>,
)
    requires
        regs.wf(),
        func == Executor::Add || func == Executor::Adc || func == Executor::Sub || func
            == Executor::Sbc || func == Executor::Xor || func == Executor::And || func
            == Executor::Or || func == Executor::Cp,
    ensures
        match spec_step_arith(func, opcode, value, cycles, regs, mem) {
            Ok(s) => s.0.wf(),
            Err(_) => true,
        },
{
}

proof fn lemma_flags_ncrement(
    func: Executor,
    opcode: u8,
    cycles: Seq<u8>,
    regs: CPURegisters,
    mem: Seq<u8>,
)
    requires
        regs.wf(),
        func == Executor::Inc || func == Executor::Dec,
    ensures
        match spec_step_ncrement(func, opcode, cycles, regs, mem) {
            Ok(s) => s.0.wf(),
            Err(_) => true,
        },
{
}

proof fn lemma_flags_jump(
    func: Executor,
    opcode: u8,
    value: Option<Ret>,
    cycles: Seq<u8>,
    regs: CPURegisters,
    mem: Seq<u8>,
)
    requires
        regs.wf(),
        func == Executor::Jp || func == Executor::Jr,
    ensures
        match spec_step_jump(func, opcode, value, cycles, regs, mem) {
            Ok(s) => s.0.wf(),
            Err(_) => true,
        },
{
}

proof fn lemma_flags_push_pop(opcode: u8, cycles: Seq<u8>, regs: CPURegisters, mem: Seq<u8>)
    requires
        regs.wf(),
    ensures
        match spec_step_push_pop(opcode, cycles, regs, mem) {
            Ok(s) => s.0.wf(),
            Err(_) => true,
        },
{
}

proof fn lemma_flags_ret(opcode: u8, cycles: Seq<u8>, regs: CPURegisters, mem: Seq<u8>)
    requires
        regs.wf(),
    ensures
        match spec_step_ret(opcode, cycles, regs, mem) {
            Ok(s) => s.0.wf(),
            Err(_) => true,
        },
{
}

proof fn lemma_flags_call(
    opcode: u8,
    value: Option<Ret>,
    cycles: Seq<u8>,
    regs: CPURegisters,
    mem: Seq<u8>,
)
    requires
        regs.wf(),
    ensures
        match spec_step_call(opcode, value, cycles, regs, mem) {
            Ok(s) => s.0.wf(),
            Err(_) => true,
        },
{
}

/// Flag mask: starting from a register file whose flag invariant holds,
/// the low nibble of F is zero immediately after any successful
/// instruction.
pub proof fn lemma_flag_mask(
    func: Executor,
    bytes: u8,
    cycles: Seq<u8>,
    regs: CPURegisters,
    mem: Seq<u8>,
)
    requires
        regs.wf(),
    ensures
        match spec_step(func, bytes, cycles, regs, mem) {
            Ok(s) => s.0.f % 16 == 0,
            Err(_) => true,
        },
{
    let opcode = mem_read(mem, regs.pc);
    let value = spec_immediate(bytes, regs.pc, mem);
    let regs1 = CPURegisters { pc: spec_wrap_add16(regs.pc, bytes as u16), ..regs };
    match func {
        Executor::Ld => lemma_flags_ld(opcode, value, cycles, regs1, mem),
        Executor::Add | Executor::Adc | Executor::Sub | Executor::Sbc | Executor::Xor
        | Executor::And | Executor::Or | Executor::Cp => lemma_flags_arith(
            func,
            opcode,
            value,
            cycles,
            regs1,
            mem,
        ),
        Executor::Inc | Executor::Dec => lemma_flags_ncrement(func, opcode, cycles, regs1, mem),
        Executor::Jp | Executor::Jr => lemma_flags_jump(func, opcode, value, cycles, regs1, mem),
        Executor::PushPop => lemma_flags_push_pop(opcode, cycles, regs1, mem),
        Executor::Ret => lemma_flags_ret(opcode, cycles, regs1, mem),
        Executor::Call => lemma_flags_call(opcode, value, cycles, regs1, mem),
        _ => {},
    }
}

} // verus!
