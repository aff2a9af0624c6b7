//! The opcode catalog entries bound to executors, and the step function
//! that fetches, decodes and executes one instruction.
//!
//! [`spec_step`] is the mathematical model of one step: what the register
//! file, the memory and the reported cycle count become for a given
//! executor binding, catalog entry and machine state.
//! [`execute_instruction`] is proved to realise it exactly, leaving the
//! state untouched whenever it reports an error.

pub mod arithmetic;
pub mod increment;
pub mod jump;
pub mod load;
pub mod stack;
pub mod utils;

use vstd::prelude::*;

use crate::cpu_registers::CPURegisters;
use crate::memory::{mem_read, mem_read16, wrap_inc, Memory};
use crate::instructions::arithmetic::{
    outcome_matches, spec_add_outcome, spec_adc_outcome, spec_and_outcome, spec_arithmetic_operands,
    spec_cp_outcome, spec_or_outcome, spec_sbc_outcome, spec_sub_outcome, spec_xor_outcome,
    Outcome,
};
use crate::instructions::increment::{spec_dec_outcome, spec_inc_outcome, spec_ncrement_operands};
use crate::instructions::jump::{
    spec_jp_outcome, spec_jr_outcome, spec_jump_operands, spec_wrap_add16,
};
use crate::instructions::load::{spec_ld_operands, spec_ld_outcome};
use crate::instructions::stack::{
    spec_call_operands, spec_call_outcome, spec_push_pop_outcome, spec_ret_operands,
    spec_ret_outcome, spec_stack_operands,
};
use crate::instructions::utils::{
    BranchArgs, Condition, InstructionData, InstructionError, Operands, Ret,
};

verus! {

/// The executor a catalog entry is bound to. `Unbound` marks a mnemonic
/// outside the implemented families; the step function reports it as
/// unimplemented rather than running anything.
#[derive(Clone, Copy, Debug, PartialEq, Eq, Structural)]
pub enum Executor {
    Nop,
    Ld,
    Add,
    Adc,
    Sub,
    Sbc,
    Xor,
    And,
    Or,
    Cp,
    Inc,
    Dec,
    Jp,
    Jr,
    PushPop,
    Ret,
    Call,
    Unbound,
}

/// The executor a mnemonic binds to; a mnemonic outside the implemented
/// families binds to [`Executor::Unbound`].
pub open spec fn spec_bind(m: Seq<char>) -> Executor {
    if m == "LD"@ {
        Executor::Ld
    } else if m == "NOP"@ {
        Executor::Nop
    } else if m == "ADD"@ {
        Executor::Add
    } else if m == "ADC"@ {
        Executor::Adc
    } else if m == "SUB"@ {
        Executor::Sub
    } else if m == "SBC"@ {
        Executor::Sbc
    } else if m == "XOR"@ {
        Executor::Xor
    } else if m == "AND"@ {
        Executor::And
    } else if m == "OR"@ {
        Executor::Or
    } else if m == "CP"@ {
        Executor::Cp
    } else if m == "INC"@ {
        Executor::Inc
    } else if m == "DEC"@ {
        Executor::Dec
    } else if m == "JP"@ {
        Executor::Jp
    } else if m == "JR"@ {
        Executor::Jr
    } else if m == "PUSH"@ {
        Executor::PushPop
    } else if m == "POP"@ {
        Executor::PushPop
    } else if m == "RET"@ {
        Executor::Ret
    } else if m == "RETI"@ {
        Executor::Ret
    } else if m == "CALL"@ {
        Executor::Call
    } else {
        Executor::Unbound
    }
}

/// Maps a mnemonic to its executor; see [`spec_bind`].
fn bind_executor(m: &String) -> (r: Executor)
    ensures
        r == spec_bind(m@),
{
    if *m == "LD".to_owned() {
        Executor::Ld
    } else if *m == "NOP".to_owned() {
        Executor::Nop
    } else if *m == "ADD".to_owned() {
        Executor::Add
    } else if *m == "ADC".to_owned() {
        Executor::Adc
    } else if *m == "SUB".to_owned() {
        Executor::Sub
    } else if *m == "SBC".to_owned() {
        Executor::Sbc
    } else if *m == "XOR".to_owned() {
        Executor::Xor
    } else if *m == "AND".to_owned() {
        Executor::And
    } else if *m == "OR".to_owned() {
        Executor::Or
    } else if *m == "CP".to_owned() {
        Executor::Cp
    } else if *m == "INC".to_owned() {
        Executor::Inc
    } else if *m == "DEC".to_owned() {
        Executor::Dec
    } else if *m == "JP".to_owned() {
        Executor::Jp
    } else if *m == "JR".to_owned() {
        Executor::Jr
    } else if *m == "PUSH".to_owned() {
        Executor::PushPop
    } else if *m == "POP".to_owned() {
        Executor::PushPop
    } else if *m == "RET".to_owned() {
        Executor::Ret
    } else if *m == "RETI".to_owned() {
        Executor::Ret
    } else if *m == "CALL".to_owned() {
        Executor::Call
    } else {
        Executor::Unbound
    }
}

/// One catalog entry together with its executor binding.
#[derive(Clone, Debug)]
pub struct Instruction {
    pub data: InstructionData,
    pub func: Executor,
}

impl Default for Instruction {
    /// An empty entry bound to NOP.
    fn default() -> (r: Self)
        ensures
            r.data.mnemonic@.len() == 0,
            r.data.bytes == 0,
            r.data.cycles@.len() == 0,
            r.func == Executor::Nop,
    {
        Instruction { data: InstructionData::default(), func: Executor::Nop }
    }
}

/// What one run of the executor a binding names leaves behind, given an
/// operand bundle, cycle counts and an optional branch condition. An
/// unbound entry yields the unimplemented error with a zero opcode,
/// since no opcode byte is at hand.
pub open spec fn spec_exec_outcome(
    func: Executor,
    operands: Operands,
    cycles: Seq<u8>,
    condition: Option<Condition>,
    regs: CPURegisters,
    mem: Seq<u8>,
) -> Outcome {
    match func {
        Executor::Nop => Ok((regs, mem, cycles[0])),
        Executor::Ld => spec_ld_outcome(operands, cycles, regs, mem),
        Executor::Add => spec_add_outcome(operands, cycles, regs, mem),
        Executor::Adc => spec_adc_outcome(operands, cycles, regs, mem),
        Executor::Sub => spec_sub_outcome(operands, cycles, regs, mem),
        Executor::Sbc => spec_sbc_outcome(operands, cycles, regs, mem),
        Executor::Xor => spec_xor_outcome(operands, cycles, regs, mem),
        Executor::And => spec_and_outcome(operands, cycles, regs, mem),
        Executor::Or => spec_or_outcome(operands, cycles, regs, mem),
        Executor::Cp => spec_cp_outcome(operands, cycles, regs, mem),
        Executor::Inc => spec_inc_outcome(operands, cycles, regs, mem),
        Executor::Dec => spec_dec_outcome(operands, cycles, regs, mem),
        Executor::Jp => spec_jp_outcome(operands, cycles, condition, regs, mem),
        Executor::Jr => spec_jr_outcome(operands, cycles, condition, regs, mem),
        Executor::PushPop => spec_push_pop_outcome(operands, cycles, regs, mem),
        Executor::Ret => spec_ret_outcome(operands, cycles, condition, regs, mem),
        Executor::Call => spec_call_outcome(operands, cycles, condition, regs, mem),
        Executor::Unbound => Err(InstructionError::UnimplementedError(0)),
    }
}

impl Instruction {
    /// Runs the bound executor on an already-decoded operand bundle;
    /// exactly [`spec_exec_outcome`]. An error leaves the state
    /// untouched.
    pub fn exec(
        &self,
        registers: &mut CPURegisters,
        memory: &mut Memory,
        params: Operands,
        branch_args: BranchArgs,
    ) -> (r: Result<u8, InstructionError>)
        requires
            old(memory).wf(),
            branch_args.wf(),
        ensures
            final(memory).wf(),
            outcome_matches(
                spec_exec_outcome(
                    self.func,
                    params,
                    branch_args.cycles@,
                    branch_args.condition,
                    *old(registers),
                    old(memory)@,
                ),
                r,
                *old(registers),
                *final(registers),
                old(memory)@,
                final(memory)@,
            ),
            old(registers).wf() && r is Ok ==> final(registers).wf(),
    {
        match self.func {
            Executor::Nop => nop(params, branch_args),
            Executor::Ld => load::ld(registers, memory, params, branch_args),
            Executor::Add => arithmetic::add(registers, memory, params, branch_args),
            Executor::Adc => arithmetic::adc(registers, memory, params, branch_args),
            Executor::Sub => arithmetic::sub(registers, memory, params, branch_args),
            Executor::Sbc => arithmetic::sbc(registers, memory, params, branch_args),
            Executor::Xor => arithmetic::xor(registers, memory, params, branch_args),
            Executor::And => arithmetic::and(registers, memory, params, branch_args),
            Executor::Or => arithmetic::or(registers, memory, params, branch_args),
            Executor::Cp => arithmetic::cp(registers, memory, params, branch_args),
            Executor::Inc => increment::inc(registers, memory, params, branch_args),
            Executor::Dec => increment::dec(registers, memory, params, branch_args),
            Executor::Jp => jump::jp(registers, memory, params, branch_args),
            Executor::Jr => jump::jr(registers, memory, params, branch_args),
            Executor::PushPop => stack::push_pop(registers, memory, params, branch_args),
            Executor::Ret => stack::ret(registers, memory, params, branch_args),
            Executor::Call => stack::call(registers, memory, params, branch_args),
            Executor::Unbound => Err(InstructionError::UnimplementedError(0)),
        }
    }
}

/// Binds one catalog entry to the executor its mnemonic names.
pub fn bind_instruction(data: InstructionData) -> (r: Instruction)
    ensures
        r.data == data,
        r.func == spec_bind(data.mnemonic@),
{
    let func = bind_executor(&data.mnemonic);
    Instruction { data, func }
}

/// NOP: does nothing and reports the first cycle count.
pub fn nop(operands: Operands, branch_args: BranchArgs) -> (r: Result<u8, InstructionError>)
    requires
        branch_args.wf(),
    ensures
        r == Ok::<u8, InstructionError>(branch_args.cycles@[0]),
{
    Ok(branch_args.cycles[0])
}

/// The opcodes whose catalog entries carry a second cycle count: the
/// conditional relative jumps, absolute jumps, returns and calls.
pub open spec fn is_conditional_opcode(opcode: u8) -> bool {
    opcode == 0x20 || opcode == 0x28 || opcode == 0x30 || opcode == 0x38 || opcode == 0xC0
        || opcode == 0xC2 || opcode == 0xC4 || opcode == 0xC8 || opcode == 0xCA || opcode == 0xCC
        || opcode == 0xD0 || opcode == 0xD2 || opcode == 0xD4 || opcode == 0xD8 || opcode == 0xDA
        || opcode == 0xDC
}

/// A decoded JP or JR bundle carries a condition only for the opcodes
/// whose catalog entries carry a second cycle count.
pub proof fn lemma_jump_condition(opcode: u8, value: Option<Ret>, regs: CPURegisters)
    ensures
        match spec_jump_operands(opcode, value, regs) {
            Ok(s) => s.1 is Some ==> is_conditional_opcode(opcode),
            Err(_) => true,
        },
{
}

/// A decoded RET bundle carries a condition only for the opcodes whose
/// catalog entries carry a second cycle count.
pub proof fn lemma_ret_condition(opcode: u8, regs: CPURegisters)
    ensures
        match spec_ret_operands(opcode, regs) {
            Ok(s) => s.1 is Some ==> is_conditional_opcode(opcode),
            Err(_) => true,
        },
{
}

/// A decoded CALL bundle carries a condition only for the opcodes whose
/// catalog entries carry a second cycle count.
pub proof fn lemma_call_condition(opcode: u8, value: Option<Ret>, regs: CPURegisters)
    ensures
        match spec_call_operands(opcode, value, regs) {
            Ok(s) => s.1 is Some ==> is_conditional_opcode(opcode),
            Err(_) => true,
        },
{
}

/// The immediate the instruction stream carries after the opcode: none
/// for a one-byte instruction, one byte or a little-endian 16-bit word
/// otherwise.
pub open spec fn spec_immediate(bytes: u8, pc: u16, mem: Seq<u8>) -> Option<Ret> {
    if bytes == 1 {
        None
    } else if bytes == 2 {
        Some(Ret::U8(mem_read(mem, wrap_inc(pc))))
    } else {
        Some(Ret::U16(mem_read16(mem, wrap_inc(pc))))
    }
}

/// The LD slice of one step: decode, then the LD executor.
pub open spec fn spec_step_ld(
    opcode: u8,
    value: Option<Ret>,
    cycles: Seq<u8>,
    regs: CPURegisters,
    mem: Seq<u8>,
) -> Outcome {
    match spec_ld_operands(opcode, value, regs, mem) {
        Ok(s) => spec_ld_outcome(s.1, cycles, s.0, mem),
        Err(e) => Err(e),
    }
}

/// The arithmetic/logic slice of one step: decode, then the executor
/// the binding names.
pub open spec fn spec_step_arith(
    func: Executor,
    opcode: u8,
    value: Option<Ret>,
    cycles: Seq<u8>,
    regs: CPURegisters,
    mem: Seq<u8>,
) -> Outcome {
    match spec_arithmetic_operands(opcode, value, regs, mem) {
        Ok(s) => match func {
            Executor::Add => spec_add_outcome(s.0, cycles, regs, mem),
            Executor::Adc => spec_adc_outcome(s.0, cycles, regs, mem),
            Executor::Sub => spec_sub_outcome(s.0, cycles, regs, mem),
            Executor::Sbc => spec_sbc_outcome(s.0, cycles, regs, mem),
            Executor::Xor => spec_xor_outcome(s.0, cycles, regs, mem),
            Executor::And => spec_and_outcome(s.0, cycles, regs, mem),
            Executor::Or => spec_or_outcome(s.0, cycles, regs, mem),
            _ => spec_cp_outcome(s.0, cycles, regs, mem),
        },
        Err(e) => Err(e),
    }
}

/// The INC/DEC slice of one step.
pub open spec fn spec_step_ncrement(
    func: Executor,
    opcode: u8,
    cycles: Seq<u8>,
    regs: CPURegisters,
    mem: Seq<u8>,
) -> Outcome {
    match spec_ncrement_operands(opcode, regs) {
        Ok(s) => match func {
            Executor::Inc => spec_inc_outcome(s.0, cycles, regs, mem),
            _ => spec_dec_outcome(s.0, cycles, regs, mem),
        },
        Err(e) => Err(e),
    }
}

/// The JP/JR slice of one step.
pub open spec fn spec_step_jump(
    func: Executor,
    opcode: u8,
    value: Option<Ret>,
    cycles: Seq<u8>,
    regs: CPURegisters,
    mem: Seq<u8>,
) -> Outcome {
    match spec_jump_operands(opcode, value, regs) {
        Ok(s) => match func {
            Executor::Jp => spec_jp_outcome(s.0, cycles, s.1, regs, mem),
            _ => spec_jr_outcome(s.0, cycles, s.1, regs, mem),
        },
        Err(e) => Err(e),
    }
}

/// The PUSH/POP slice of one step: the decoder moves SP, then the
/// executor moves the value.
pub open spec fn spec_step_push_pop(
    opcode: u8,
    cycles: Seq<u8>,
    regs: CPURegisters,
    mem: Seq<u8>,
) -> Outcome {
    match spec_stack_operands(opcode, regs) {
        Ok(s) => spec_push_pop_outcome(s.1, cycles, s.0, mem),
        Err(e) => Err(e),
    }
}

/// The RET/RETI slice of one step.
pub open spec fn spec_step_ret(
    opcode: u8,
    cycles: Seq<u8>,
    regs: CPURegisters,
    mem: Seq<u8>,
) -> Outcome {
    match spec_ret_operands(opcode, regs) {
        Ok(s) => spec_ret_outcome(s.0, cycles, s.1, regs, mem),
        Err(e) => Err(e),
    }
}

/// The CALL slice of one step.
pub open spec fn spec_step_call(
    opcode: u8,
    value: Option<Ret>,
    cycles: Seq<u8>,
    regs: CPURegisters,
    mem: Seq<u8>,
) -> Outcome {
    match spec_call_operands(opcode, value, regs) {
        Ok(s) => spec_call_outcome(s.0, cycles, s.1, regs, mem),
        Err(e) => Err(e),
    }
}

/// One step of the core, as a function of the executor binding, the
/// catalog entry's length and cycle counts, and the machine state: the
/// opcode is fetched at PC, the immediate read, PC advanced past the
/// instruction, the operand bundle decoded, and the executor applied.
/// An error leaves no trace on the state.
pub open spec fn spec_step(
    func: Executor,
    bytes: u8,
    cycles: Seq<u8>,
    regs: CPURegisters,
    mem: Seq<u8>,
) -> Outcome {
    let opcode = mem_read(mem, regs.pc);
    let value = spec_immediate(bytes, regs.pc, mem);
    let regs1 = CPURegisters { pc: spec_wrap_add16(regs.pc, bytes as u16), ..regs };
    match func {
        Executor::Nop => Ok((regs1, mem, cycles[0])),
        Executor::Ld => spec_step_ld(opcode, value, cycles, regs1, mem),
        Executor::Add | Executor::Adc | Executor::Sub | Executor::Sbc | Executor::Xor
            | Executor::And | Executor::Or | Executor::Cp => spec_step_arith(
            func,
            opcode,
            value,
            cycles,
            regs1,
            mem,
        ),
        Executor::Inc | Executor::Dec => spec_step_ncrement(func, opcode, cycles, regs1, mem),
        Executor::Jp | Executor::Jr => spec_step_jump(func, opcode, value, cycles, regs1, mem),
        Executor::PushPop => spec_step_push_pop(opcode, cycles, regs1, mem),
        Executor::Ret => spec_step_ret(opcode, cycles, regs1, mem),
        Executor::Call => spec_step_call(opcode, value, cycles, regs1, mem),
        Executor::Unbound => Err(InstructionError::UnimplementedError(opcode)),
    }
}

/// Decodes and runs an LD opcode against [`spec_step_ld`].
#[verifier::rlimit(50)]
fn step_ld(
    registers: &mut CPURegisters,
    memory: &mut Memory,
    opcode: u8,
    value: Option<Ret>,
    cycles: Vec<u8>,
) -> (r: Result<u8, InstructionError>)
    requires
        old(memory).wf(),
        cycles@.len() >= 1,
    ensures
        final(memory).wf(),
        outcome_matches(
            spec_step_ld(opcode, value, cycles@, *old(registers), old(memory)@),
            r,
            *old(registers),
            *final(registers),
            old(memory)@,
            final(memory)@,
        ),
        old(registers).wf() ==> final(registers).wf(),
{
    let saved: CPURegisters = *registers;
    let decoded = match load::get_ld_operands(registers, memory, opcode, value) {
        Ok(x) => x,
        Err(e) => {
            return Err(e);
        },
    };
    let branch_args = BranchArgs { cycles, condition: decoded.1 };
    match load::ld(registers, memory, decoded.0, branch_args) {
        Ok(c) => Ok(c),
        Err(e) => {
            *registers = saved;
            Err(e)
        },
    }
}

/// Decodes and runs an arithmetic/logic opcode against
/// [`spec_step_arith`].
#[verifier::rlimit(50)]
fn step_arith(
    func: Executor,
    registers: &mut CPURegisters,
    memory: &mut Memory,
    opcode: u8,
    value: Option<Ret>,
    cycles: Vec<u8>,
) -> (r: Result<u8, InstructionError>)
    requires
        old(memory).wf(),
        cycles@.len() >= 1,
        func == Executor::Add || func == Executor::Adc || func == Executor::Sub || func
            == Executor::Sbc || func == Executor::Xor || func == Executor::And || func
            == Executor::Or || func == Executor::Cp,
    ensures
        final(memory).wf(),
        outcome_matches(
            spec_step_arith(func, opcode, value, cycles@, *old(registers), old(memory)@),
            r,
            *old(registers),
            *final(registers),
            old(memory)@,
            final(memory)@,
        ),
        old(registers).wf() ==> final(registers).wf(),
{
    let saved: CPURegisters = *registers;
    let decoded = match arithmetic::get_arithmetic_operands(registers, memory, opcode, value) {
        Ok(x) => x,
        Err(e) => {
            return Err(e);
        },
    };
    let branch_args = BranchArgs { cycles, condition: decoded.1 };
    let result = match func {
        Executor::Add => arithmetic::add(registers, memory, decoded.0, branch_args),
        Executor::Adc => arithmetic::adc(registers, memory, decoded.0, branch_args),
        Executor::Sub => arithmetic::sub(registers, memory, decoded.0, branch_args),
        Executor::Sbc => arithmetic::sbc(registers, memory, decoded.0, branch_args),
        Executor::Xor => arithmetic::xor(registers, memory, decoded.0, branch_args),
        Executor::And => arithmetic::and(registers, memory, decoded.0, branch_args),
        Executor::Or => arithmetic::or(registers, memory, decoded.0, branch_args),
        _ => arithmetic::cp(registers, memory, decoded.0, branch_args),
    };
    match result {
        Ok(c) => Ok(c),
        Err(e) => {
            *registers = saved;
            Err(e)
        },
    }
}

/// Decodes and runs an INC or DEC opcode against
/// [`spec_step_ncrement`].
#[verifier::rlimit(50)]
fn step_ncrement(
    func: Executor,
    registers: &mut CPURegisters,
    memory: &mut Memory,
    opcode: u8,
    value: Option<Ret>,
    cycles: Vec<u8>,
) -> (r: Result<u8, InstructionError>)
    requires
        old(memory).wf(),
        cycles@.len() >= 1,
        func == Executor::Inc || func == Executor::Dec,
    ensures
        final(memory).wf(),
        outcome_matches(
            spec_step_ncrement(func, opcode, cycles@, *old(registers), old(memory)@),
            r,
            *old(registers),
            *final(registers),
            old(memory)@,
            final(memory)@,
        ),
        old(registers).wf() ==> final(registers).wf(),
{
    let saved: CPURegisters = *registers;
    let decoded = match increment::get_ncrement_operands(registers, memory, opcode, value) {
        Ok(x) => x,
        Err(e) => {
            return Err(e);
        },
    };
    let branch_args = BranchArgs { cycles, condition: decoded.1 };
    let result = match func {
        Executor::Inc => increment::inc(registers, memory, decoded.0, branch_args),
        _ => increment::dec(registers, memory, decoded.0, branch_args),
    };
    match result {
        Ok(c) => Ok(c),
        Err(e) => {
            *registers = saved;
            Err(e)
        },
    }
}

/// Decodes and runs a JP or JR opcode against [`spec_step_jump`].
#[verifier::rlimit(50)]
fn step_jump(
    func: Executor,
    registers: &mut CPURegisters,
    memory: &mut Memory,
    opcode: u8,
    value: Option<Ret>,
    cycles: Vec<u8>,
) -> (r: Result<u8, InstructionError>)
    requires
        old(memory).wf(),
        cycles@.len() >= 1,
        is_conditional_opcode(opcode) ==> cycles@.len() >= 2,
        func == Executor::Jp || func == Executor::Jr,
    ensures
        final(memory).wf(),
        outcome_matches(
            spec_step_jump(func, opcode, value, cycles@, *old(registers), old(memory)@),
            r,
            *old(registers),
            *final(registers),
            old(memory)@,
            final(memory)@,
        ),
        old(registers).wf() ==> final(registers).wf(),
{
    let saved: CPURegisters = *registers;
    let decoded = match jump::get_jump_operands(registers, memory, opcode, value) {
        Ok(x) => x,
        Err(e) => {
            return Err(e);
        },
    };
    proof {
        lemma_jump_condition(opcode, value, *registers);
    }
    let branch_args = BranchArgs { cycles, condition: decoded.1 };
    let result = match func {
        Executor::Jp => jump::jp(registers, memory, decoded.0, branch_args),
        _ => jump::jr(registers, memory, decoded.0, branch_args),
    };
    match result {
        Ok(c) => Ok(c),
        Err(e) => {
            *registers = saved;
            Err(e)
        },
    }
}

/// Decodes and runs a PUSH or POP opcode against
/// [`spec_step_push_pop`].
#[verifier::rlimit(50)]
fn step_push_pop(
    registers: &mut CPURegisters,
    memory: &mut Memory,
    opcode: u8,
    value: Option<Ret>,
    cycles: Vec<u8>,
) -> (r: Result<u8, InstructionError>)
    requires
        old(memory).wf(),
        cycles@.len() >= 1,
    ensures
        final(memory).wf(),
        outcome_matches(
            spec_step_push_pop(opcode, cycles@, *old(registers), old(memory)@),
            r,
            *old(registers),
            *final(registers),
            old(memory)@,
            final(memory)@,
        ),
        old(registers).wf() ==> final(registers).wf(),
{
    let saved: CPURegisters = *registers;
    let decoded = match stack::get_stack_operands(registers, memory, opcode, value) {
        Ok(x) => x,
        Err(e) => {
            return Err(e);
        },
    };
    let branch_args = BranchArgs { cycles, condition: decoded.1 };
    match stack::push_pop(registers, memory, decoded.0, branch_args) {
        Ok(c) => Ok(c),
        Err(e) => {
            *registers = saved;
            Err(e)
        },
    }
}

/// Decodes and runs a RET or RETI opcode against [`spec_step_ret`].
#[verifier::rlimit(50)]
fn step_ret(
    registers: &mut CPURegisters,
    memory: &mut Memory,
    opcode: u8,
    value: Option<Ret>,
    cycles: Vec<u8>,
) -> (r: Result<u8, InstructionError>)
    requires
        old(memory).wf(),
        cycles@.len() >= 1,
        is_conditional_opcode(opcode) ==> cycles@.len() >= 2,
    ensures
        final(memory).wf(),
        outcome_matches(
            spec_step_ret(opcode, cycles@, *old(registers), old(memory)@),
            r,
            *old(registers),
            *final(registers),
            old(memory)@,
            final(memory)@,
        ),
        old(registers).wf() ==> final(registers).wf(),
{
    let saved: CPURegisters = *registers;
    let decoded = match stack::get_ret_operands(registers, memory, opcode, value) {
        Ok(x) => x,
        Err(e) => {
            return Err(e);
        },
    };
    proof {
        lemma_ret_condition(opcode, *registers);
    }
    let branch_args = BranchArgs { cycles, condition: decoded.1 };
    match stack::ret(registers, memory, decoded.0, branch_args) {
        Ok(c) => Ok(c),
        Err(e) => {
            *registers = saved;
            Err(e)
        },
    }
}

/// Decodes and runs a CALL opcode against [`spec_step_call`].
#[verifier::rlimit(50)]
fn step_call(
    registers: &mut CPURegisters,
    memory: &mut Memory,
    opcode: u8,
    value: Option<Ret>,
    cycles: Vec<u8>,
) -> (r: Result<u8, InstructionError>)
    requires
        old(memory).wf(),
        cycles@.len() >= 1,
        is_conditional_opcode(opcode) ==> cycles@.len() >= 2,
    ensures
        final(memory).wf(),
        outcome_matches(
            spec_step_call(opcode, value, cycles@, *old(registers), old(memory)@),
            r,
            *old(registers),
            *final(registers),
            old(memory)@,
            final(memory)@,
        ),
        old(registers).wf() ==> final(registers).wf(),
{
    let saved: CPURegisters = *registers;
    let decoded = match stack::get_call_operands(registers, memory, opcode, value) {
        Ok(x) => x,
        Err(e) => {
            return Err(e);
        },
    };
    proof {
        lemma_call_condition(opcode, value, *registers);
    }
    let branch_args = BranchArgs { cycles, condition: decoded.1 };
    match stack::call(registers, memory, decoded.0, branch_args) {
        Ok(c) => Ok(c),
        Err(e) => {
            *registers = saved;
            Err(e)
        },
    }
}

/// Runs one instruction: fetches the opcode at PC, reads the immediate
/// the catalog entry announces, advances PC past the instruction,
/// decodes the operand bundle for the bound executor and applies it,
/// returning the machine-cycle count. Exactly [`spec_step`]; on an
/// error the register file and the memory are left as they were.
#[verifier::rlimit(50)]
pub fn execute_instruction(
    instruction: &Instruction,
    registers: &mut CPURegisters,
    memory: &mut Memory,
) -> (r: Result<u8, InstructionError>)
    requires
        old(registers).wf(),
        old(memory).wf(),
        instruction.data.wf(),
        is_conditional_opcode(mem_read(old(memory)@, old(registers).pc))
            ==> instruction.data.cycles@.len() == 2,
    ensures
        final(memory).wf(),
        final(registers).wf(),
        final(registers).f % 16 == 0,
        outcome_matches(
            spec_step(
                instruction.func,
                instruction.data.bytes,
                instruction.data.cycles@,
                *old(registers),
                old(memory)@,
            ),
            r,
            *old(registers),
            *final(registers),
            old(memory)@,
            final(memory)@,
        ),
{
    let opcode = memory.read_u8(registers.pc);
    let value: Option<Ret> = if instruction.data.bytes == 1 {
        None
    } else if instruction.data.bytes == 2 {
        Some(
            Ret::U8(
                memory.read_u8(
                    if registers.pc == 0xFFFF {
                        0
                    } else {
                        registers.pc + 1
                    },
                ),
            ),
        )
    } else {
        Some(
            Ret::U16(
                memory.read_u16(
                    if registers.pc == 0xFFFF {
                        0
                    } else {
                        registers.pc + 1
                    },
                ),
            ),
        )
    };

    let mut cycles_vec: Vec<u8> = Vec::new();
    cycles_vec.push(instruction.data.cycles[0]);
    if instruction.data.cycles.len() >= 2 {
        cycles_vec.push(instruction.data.cycles[1]);
    }
    proof {
        assert(cycles_vec@ =~= instruction.data.cycles@);
    }

    let saved: CPURegisters = *registers;
    registers.pc = ((registers.pc as u32 + instruction.data.bytes as u32) % 0x10000) as u16;

    let result: Result<u8, InstructionError> = match instruction.func {
        Executor::Nop => Ok(cycles_vec[0]),
        Executor::Ld => step_ld(registers, memory, opcode, value, cycles_vec),
        Executor::Add | Executor::Adc | Executor::Sub | Executor::Sbc | Executor::Xor
        | Executor::And | Executor::Or | Executor::Cp => step_arith(
            instruction.func,
            registers,
            memory,
            opcode,
            value,
            cycles_vec,
        ),
        Executor::Inc | Executor::Dec => step_ncrement(
            instruction.func,
            registers,
            memory,
            opcode,
            value,
            cycles_vec,
        ),
        Executor::Jp | Executor::Jr => step_jump(
            instruction.func,
            registers,
            memory,
            opcode,
            value,
            cycles_vec,
        ),
        Executor::PushPop => step_push_pop(registers, memory, opcode, value, cycles_vec),
        Executor::Ret => step_ret(registers, memory, opcode, value, cycles_vec),
        Executor::Call => step_call(registers, memory, opcode, value, cycles_vec),
        Executor::Unbound => Err(InstructionError::UnimplementedError(opcode)),
    };

    match result {
        Ok(c) => Ok(c),
        Err(e) => {
            *registers = saved;
            Err(e)
        },
    }
}




} // verus!
