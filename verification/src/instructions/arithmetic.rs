//! The 8-bit arithmetic/logic executors (ADD, ADC, SUB, SBC, AND, OR,
//! XOR, CP), 16-bit ADD HL, and their operand decoder.
//!
//! Each helper's contract states the exact result and flag byte: Z is set
//! when the result is zero, N marks subtractive operations, H reflects
//! carry or borrow across the low nibble (bit 11 for the 16-bit add), and
//! C reflects full-width carry or borrow.

use vstd::prelude::*;

use crate::cpu_registers::CPURegisters;
use crate::memory::{mem_read, mem_write, Memory};
use crate::instructions::utils::{
    flag_c, flag_z, flags_byte, make_flags, read_flag_c, read_pair, read_reg16, read_reg8,
    spec_read_pair, spec_read_reg16, spec_read_reg8, spec_write_pair, spec_write_reg16,
    spec_write_reg8, write_pair, write_reg16, write_reg8, BranchArgs, Condition, InstructionError,
    Operands, Reg8, RegPair, Ret, Word,
};

verus! {

/// The result and flag byte of an 8-bit ADD: `r = a + b mod 256`,
/// Z = (r == 0), N = 0, H = ((a&0xF) + (b&0xF) > 0xF), C = (a + b > 0xFF).
pub open spec fn spec_add8(a: u8, b: u8) -> (u8, u8) {
    (
        ((a + b) % 256) as u8,
        flags_byte((a + b) % 256 == 0, false, a % 16 + b % 16 > 15, a + b > 255),
    )
}

/// The result and flag byte of an 8-bit ADC, folding the incoming carry
/// into both the sum and the H and C conditions.
pub open spec fn spec_adc8(a: u8, b: u8, carry_in: bool) -> (u8, u8) {
    let ci: int = if carry_in {
        1
    } else {
        0
    };
    (
        ((a + b + ci) % 256) as u8,
        flags_byte((a + b + ci) % 256 == 0, false, a % 16 + b % 16 + ci > 15, a + b + ci > 255),
    )
}

/// The result and flag byte of an 8-bit SUB (and of CP, which discards
/// the result): `r = a - b mod 256`, Z = (r == 0), N = 1,
/// H = ((a&0xF) < (b&0xF)), C = (a < b).
pub open spec fn spec_sub8(a: u8, b: u8) -> (u8, u8) {
    (((256 + a - b) % 256) as u8, flags_byte((256 + a - b) % 256 == 0, true, a % 16 < b % 16, a < b))
}

/// The result and flag byte of an 8-bit SBC, folding the incoming carry
/// into both the difference and the H and C conditions.
pub open spec fn spec_sbc8(a: u8, b: u8, carry_in: bool) -> (u8, u8) {
    let ci: int = if carry_in {
        1
    } else {
        0
    };
    (
        ((256 + a - b - ci) % 256) as u8,
        flags_byte((256 + a - b - ci) % 256 == 0, true, a % 16 < b % 16 + ci, a < b + ci),
    )
}

/// The result and flag byte of AND: H is forced to one, C to zero.
pub open spec fn spec_and8(a: u8, b: u8) -> (u8, u8) {
    ((a & b), flags_byte((a & b) == 0, false, true, false))
}

/// The result and flag byte of OR: H and C are cleared.
pub open spec fn spec_or8(a: u8, b: u8) -> (u8, u8) {
    ((a | b), flags_byte((a | b) == 0, false, false, false))
}

/// The result and flag byte of XOR: H and C are cleared.
pub open spec fn spec_xor8(a: u8, b: u8) -> (u8, u8) {
    ((a ^ b), flags_byte((a ^ b) == 0, false, false, false))
}

/// The result and flag byte of 16-bit ADD HL,rr: Z is left as it was,
/// N = 0, H is the carry out of bit 11, C the carry out of bit 15.
pub open spec fn spec_add16(a: u16, b: u16, f: u8) -> (u16, u8) {
    (
        ((a + b) % 0x10000) as u16,
        flags_byte(flag_z(f), false, a % 0x1000 + b % 0x1000 > 0xFFF, a + b > 0xFFFF),
    )
}

/// Adds two bytes, returning the result and the ADD flag byte.
pub fn add_with_flags(target: u8, source: u8) -> (r: (u8, u8))
    ensures
        r == spec_add8(target, source),
        r.1 % 16 == 0,
{
    let wide: u16 = target as u16 + source as u16;
    let result: u8 = (wide % 256) as u8;
    let flags: u8 = make_flags(result == 0, false, target % 16 + source % 16 > 15, wide > 255);
    (result, flags)
}

/// Adds two bytes and a carry bit, returning the result and the ADC flag
/// byte.
pub fn adc_with_flags(target: u8, source: u8, carry_in: bool) -> (r: (u8, u8))
    ensures
        r == spec_adc8(target, source, carry_in),
        r.1 % 16 == 0,
{
    let ci: u16 = if carry_in {
        1
    } else {
        0
    };
    let wide: u16 = target as u16 + source as u16 + ci;
    let result: u8 = (wide % 256) as u8;
    let flags: u8 = make_flags(
        result == 0,
        false,
        target as u16 % 16 + source as u16 % 16 + ci > 15,
        wide > 255,
    );
    (result, flags)
}

/// Subtracts one byte from another, returning the result and the SUB flag
/// byte.
pub fn sub_with_flags(target: u8, source: u8) -> (r: (u8, u8))
    ensures
        r == spec_sub8(target, source),
        r.1 % 16 == 0,
{
    let wide: u16 = 256 + target as u16 - source as u16;
    let result: u8 = (wide % 256) as u8;
    let flags: u8 = make_flags(result == 0, true, target % 16 < source % 16, target < source);
    (result, flags)
}

/// Subtracts a byte and a carry bit, returning the result and the SBC
/// flag byte.
pub fn sbc_with_flags(target: u8, source: u8, carry_in: bool) -> (r: (u8, u8))
    ensures
        r == spec_sbc8(target, source, carry_in),
        r.1 % 16 == 0,
{
    let ci: u16 = if carry_in {
        1
    } else {
        0
    };
    let wide: u16 = 256 + target as u16 - source as u16 - ci;
    let result: u8 = (wide % 256) as u8;
    let flags: u8 = make_flags(
        result == 0,
        true,
        ((target % 16) as u16) < (source % 16) as u16 + ci,
        (target as u16) < source as u16 + ci,
    );
    (result, flags)
}

/// Adds two 16-bit values, returning the result and the ADD HL flag byte;
/// Z is carried over from the given flag byte.
pub fn add_u16_with_flags(target: u16, source: u16, old_flags: u8) -> (r: (u16, u8))
    ensures
        r == spec_add16(target, source, old_flags),
        r.1 % 16 == 0,
{
    let wide: u32 = target as u32 + source as u32;
    let result: u16 = (wide % 0x10000) as u16;
    let flags: u8 = make_flags(
        old_flags / 128 % 2 == 1,
        false,
        target % 0x1000 + source % 0x1000 > 0xFFF,
        wide > 0xFFFF,
    );
    (result, flags)
}

/// What one executor run leaves behind on success: the register file, the
/// memory bytes, and the cycle count it reports.
pub type Outcome = Result<(CPURegisters, Seq<u8>, u8), InstructionError>;

/// Whether an executor's return value and final state match a spec-level
/// outcome: on success the state is the outcome's, on an error the state
/// is untouched.
pub open spec fn outcome_matches(
    outcome: Outcome,
    r: Result<u8, InstructionError>,
    regs0: CPURegisters,
    regs1: CPURegisters,
    mem0: Seq<u8>,
    mem1: Seq<u8>,
) -> bool {
    match outcome {
        Ok(s) => r == Ok::<u8, InstructionError>(s.2) && regs1 == s.0 && mem1 == s.1,
        Err(e) => r == Err::<u8, InstructionError>(e) && regs1 == regs0 && mem1 == mem0,
    }
}

/// The outcome of an 8-bit arithmetic executor whose result and flag
/// byte come from `op`, applied to a two-slot bundle. `writes_result`
/// is false for CP, which computes flags only.
pub open spec fn spec_alu8_outcome(
    operands: Operands,
    cycles: Seq<u8>,
    regs: CPURegisters,
    mem: Seq<u8>,
    op: spec_fn(u8, u8) -> (u8, u8),
    writes_result: bool,
) -> Outcome {
    match operands {
        Operands::Two(target, source) => match (target, source) {
            (Word::Reg8(t), Word::U8(s)) => {
                let vf = op(spec_read_reg8(regs, t), s);
                let regs2 = if writes_result {
                    spec_write_reg8(regs, t, vf.0)
                } else {
                    regs
                };
                Ok((CPURegisters { f: vf.1, ..regs2 }, mem, cycles[0]))
            },
            (Word::Mem8(a), Word::U8(s)) => {
                let vf = op(mem_read(mem, a), s);
                let mem2 = if writes_result {
                    mem_write(mem, a, vf.0)
                } else {
                    mem
                };
                Ok((CPURegisters { f: vf.1, ..regs }, mem2, cycles[0]))
            },
            (t, s) => Err(InstructionError::IncorrectOperandsError(Operands::Two(t, s))),
        },
        _ => Err(InstructionError::InvalidOperandsError(operands)),
    }
}

/// The outcome of the ADD executor: an 8-bit add into a register or
/// memory slot, or a 16-bit add into a register pair or SP.
pub open spec fn spec_add_outcome(
    operands: Operands,
    cycles: Seq<u8>,
    regs: CPURegisters,
    mem: Seq<u8>,
) -> Outcome {
    match operands {
        Operands::Two(target, source) => match (target, source) {
            (Word::Reg8(t), Word::U8(s)) => {
                let vf = spec_add8(spec_read_reg8(regs, t), s);
                Ok((CPURegisters { f: vf.1, ..spec_write_reg8(regs, t, vf.0) }, mem, cycles[0]))
            },
            (Word::Mem8(a), Word::U8(s)) => {
                let vf = spec_add8(mem_read(mem, a), s);
                Ok((CPURegisters { f: vf.1, ..regs }, mem_write(mem, a, vf.0), cycles[0]))
            },
            (Word::Pair(p), Word::U16(s)) => {
                let vf = spec_add16(spec_read_pair(regs, p), s, regs.f);
                Ok((CPURegisters { f: vf.1, ..spec_write_pair(regs, p, vf.0) }, mem, cycles[0]))
            },
            (Word::Reg16(t), Word::U16(s)) => {
                let vf = spec_add16(spec_read_reg16(regs, t), s, regs.f);
                Ok((CPURegisters { f: vf.1, ..spec_write_reg16(regs, t, vf.0) }, mem, cycles[0]))
            },
            (t, s) => Err(InstructionError::IncorrectOperandsError(Operands::Two(t, s))),
        },
        _ => Err(InstructionError::InvalidOperandsError(operands)),
    }
}

/// The outcome of the ADC executor.
pub open spec fn spec_adc_outcome(
    operands: Operands,
    cycles: Seq<u8>,
    regs: CPURegisters,
    mem: Seq<u8>,
) -> Outcome {
    spec_alu8_outcome(
        operands,
        cycles,
        regs,
        mem,
        |a: u8, b: u8| spec_adc8(a, b, flag_c(regs.f)),
        true,
    )
}

/// The outcome of the SUB executor.
pub open spec fn spec_sub_outcome(
    operands: Operands,
    cycles: Seq<u8>,
    regs: CPURegisters,
    mem: Seq<u8>,
) -> Outcome {
    spec_alu8_outcome(operands, cycles, regs, mem, |a: u8, b: u8| spec_sub8(a, b), true)
}

/// The outcome of the SBC executor.
pub open spec fn spec_sbc_outcome(
    operands: Operands,
    cycles: Seq<u8>,
    regs: CPURegisters,
    mem: Seq<u8>,
) -> Outcome {
    spec_alu8_outcome(
        operands,
        cycles,
        regs,
        mem,
        |a: u8, b: u8| spec_sbc8(a, b, flag_c(regs.f)),
        true,
    )
}

/// The outcome of the XOR executor.
pub open spec fn spec_xor_outcome(
    operands: Operands,
    cycles: Seq<u8>,
    regs: CPURegisters,
    mem: Seq<u8>,
) -> Outcome {
    spec_alu8_outcome(operands, cycles, regs, mem, |a: u8, b: u8| spec_xor8(a, b), true)
}

/// The outcome of the AND executor.
pub open spec fn spec_and_outcome(
    operands: Operands,
    cycles: Seq<u8>,
    regs: CPURegisters,
    mem: Seq<u8>,
) -> Outcome {
    spec_alu8_outcome(operands, cycles, regs, mem, |a: u8, b: u8| spec_and8(a, b), true)
}

/// The outcome of the OR executor.
pub open spec fn spec_or_outcome(
    operands: Operands,
    cycles: Seq<u8>,
    regs: CPURegisters,
    mem: Seq<u8>,
) -> Outcome {
    spec_alu8_outcome(operands, cycles, regs, mem, |a: u8, b: u8| spec_or8(a, b), true)
}

/// The outcome of the CP executor: SUB's flags without the store.
pub open spec fn spec_cp_outcome(
    operands: Operands,
    cycles: Seq<u8>,
    regs: CPURegisters,
    mem: Seq<u8>,
) -> Outcome {
    spec_alu8_outcome(operands, cycles, regs, mem, |a: u8, b: u8| spec_sub8(a, b), false)
}

/// ADD: adds the source into the target slot and rewrites the flag byte.
pub fn add(
    registers: &mut CPURegisters,
    memory: &mut Memory,
    operands: Operands,
    branch_args: BranchArgs,
) -> (r: Result<u8, InstructionError>)
    requires
        old(memory).wf(),
        branch_args.wf(),
    ensures
        final(memory).wf(),
        outcome_matches(
            spec_add_outcome(operands, branch_args.cycles@, *old(registers), old(memory)@),
            r,
            *old(registers),
            *final(registers),
            old(memory)@,
            final(memory)@,
        ),
        r is Ok ==> final(registers).wf(),
{
    match operands {
        Operands::Two(target, source) => match (target, source) {
            (Word::Reg8(t), Word::U8(s)) => {
                let a = read_reg8(registers, t);
                let vf = add_with_flags(a, s);
                write_reg8(registers, t, vf.0);
                registers.f = vf.1;
                Ok(branch_args.cycles[0])
            },
            (Word::Mem8(addr), Word::U8(s)) => {
                let a = memory.read_u8(addr);
                let vf = add_with_flags(a, s);
                memory.write_u8(addr, vf.0);
                registers.f = vf.1;
                Ok(branch_args.cycles[0])
            },
            (Word::Pair(p), Word::U16(s)) => {
                let a = read_pair(registers, p);
                let vf = add_u16_with_flags(a, s, registers.f);
                write_pair(registers, p, vf.0);
                registers.f = vf.1;
                Ok(branch_args.cycles[0])
            },
            (Word::Reg16(t), Word::U16(s)) => {
                let a = read_reg16(registers, t);
                let vf = add_u16_with_flags(a, s, registers.f);
                write_reg16(registers, t, vf.0);
                registers.f = vf.1;
                Ok(branch_args.cycles[0])
            },
            (t, s) => Err(InstructionError::IncorrectOperandsError(Operands::Two(t, s))),
        },
        _ => Err(InstructionError::InvalidOperandsError(operands)),
    }
}

/// ADC: adds the source and the carry bit into the target slot.
pub fn adc(
    registers: &mut CPURegisters,
    memory: &mut Memory,
    operands: Operands,
    branch_args: BranchArgs,
) -> (r: Result<u8, InstructionError>)
    requires
        old(memory).wf(),
        branch_args.wf(),
    ensures
        final(memory).wf(),
        outcome_matches(
            spec_adc_outcome(operands, branch_args.cycles@, *old(registers), old(memory)@),
            r,
            *old(registers),
            *final(registers),
            old(memory)@,
            final(memory)@,
        ),
        r is Ok ==> final(registers).wf(),
{
    match operands {
        Operands::Two(target, source) => match (target, source) {
            (Word::Reg8(t), Word::U8(s)) => {
                let carry = read_flag_c(registers.f);
                let a = read_reg8(registers, t);
                let vf = adc_with_flags(a, s, carry);
                write_reg8(registers, t, vf.0);
                registers.f = vf.1;
                Ok(branch_args.cycles[0])
            },
            (Word::Mem8(addr), Word::U8(s)) => {
                let carry = read_flag_c(registers.f);
                let a = memory.read_u8(addr);
                let vf = adc_with_flags(a, s, carry);
                memory.write_u8(addr, vf.0);
                registers.f = vf.1;
                Ok(branch_args.cycles[0])
            },
            (t, s) => Err(InstructionError::IncorrectOperandsError(Operands::Two(t, s))),
        },
        _ => Err(InstructionError::InvalidOperandsError(operands)),
    }
}

/// SUB: subtracts the source from the target slot.
pub fn sub(
    registers: &mut CPURegisters,
    memory: &mut Memory,
    operands: Operands,
    branch_args: BranchArgs,
) -> (r: Result<u8, InstructionError>)
    requires
        old(memory).wf(),
        branch_args.wf(),
    ensures
        final(memory).wf(),
        outcome_matches(
            spec_sub_outcome(operands, branch_args.cycles@, *old(registers), old(memory)@),
            r,
            *old(registers),
            *final(registers),
            old(memory)@,
            final(memory)@,
        ),
        r is Ok ==> final(registers).wf(),
{
    match operands {
        Operands::Two(target, source) => match (target, source) {
            (Word::Reg8(t), Word::U8(s)) => {
                let a = read_reg8(registers, t);
                let vf = sub_with_flags(a, s);
                write_reg8(registers, t, vf.0);
                registers.f = vf.1;
                Ok(branch_args.cycles[0])
            },
            (Word::Mem8(addr), Word::U8(s)) => {
                let a = memory.read_u8(addr);
                let vf = sub_with_flags(a, s);
                memory.write_u8(addr, vf.0);
                registers.f = vf.1;
                Ok(branch_args.cycles[0])
            },
            (t, s) => Err(InstructionError::IncorrectOperandsError(Operands::Two(t, s))),
        },
        _ => Err(InstructionError::InvalidOperandsError(operands)),
    }
}

/// SBC: subtracts the source and the carry bit from the target slot.
pub fn sbc(
    registers: &mut CPURegisters,
    memory: &mut Memory,
    operands: Operands,
    branch_args: BranchArgs,
) -> (r: Result<u8, InstructionError>)
    requires
        old(memory).wf(),
        branch_args.wf(),
    ensures
        final(memory).wf(),
        outcome_matches(
            spec_sbc_outcome(operands, branch_args.cycles@, *old(registers), old(memory)@),
            r,
            *old(registers),
            *final(registers),
            old(memory)@,
            final(memory)@,
        ),
        r is Ok ==> final(registers).wf(),
{
    match operands {
        Operands::Two(target, source) => match (target, source) {
            (Word::Reg8(t), Word::U8(s)) => {
                let carry = read_flag_c(registers.f);
                let a = read_reg8(registers, t);
                let vf = sbc_with_flags(a, s, carry);
                write_reg8(registers, t, vf.0);
                registers.f = vf.1;
                Ok(branch_args.cycles[0])
            },
            (Word::Mem8(addr), Word::U8(s)) => {
                let carry = read_flag_c(registers.f);
                let a = memory.read_u8(addr);
                let vf = sbc_with_flags(a, s, carry);
                memory.write_u8(addr, vf.0);
                registers.f = vf.1;
                Ok(branch_args.cycles[0])
            },
            (t, s) => Err(InstructionError::IncorrectOperandsError(Operands::Two(t, s))),
        },
        _ => Err(InstructionError::InvalidOperandsError(operands)),
    }
}

/// XOR: exclusive-ors the source into the target slot; H and C clear.
pub fn xor(
    registers: &mut CPURegisters,
    memory: &mut Memory,
    operands: Operands,
    branch_args: BranchArgs,
) -> (r: Result<u8, InstructionError>)
    requires
        old(memory).wf(),
        branch_args.wf(),
    ensures
        final(memory).wf(),
        outcome_matches(
            spec_xor_outcome(operands, branch_args.cycles@, *old(registers), old(memory)@),
            r,
            *old(registers),
            *final(registers),
            old(memory)@,
            final(memory)@,
        ),
        r is Ok ==> final(registers).wf(),
{
    match operands {
        Operands::Two(target, source) => match (target, source) {
            (Word::Reg8(t), Word::U8(s)) => {
                let a = read_reg8(registers, t);
                let v: u8 = a ^ s;
                write_reg8(registers, t, v);
                registers.f = make_flags(v == 0, false, false, false);
                Ok(branch_args.cycles[0])
            },
            (Word::Mem8(addr), Word::U8(s)) => {
                let a = memory.read_u8(addr);
                let v: u8 = a ^ s;
                memory.write_u8(addr, v);
                registers.f = make_flags(v == 0, false, false, false);
                Ok(branch_args.cycles[0])
            },
            (t, s) => Err(InstructionError::IncorrectOperandsError(Operands::Two(t, s))),
        },
        _ => Err(InstructionError::InvalidOperandsError(operands)),
    }
}

/// AND: ands the source into the target slot; H set, C clear.
pub fn and(
    registers: &mut CPURegisters,
    memory: &mut Memory,
    operands: Operands,
    branch_args: BranchArgs,
) -> (r: Result<u8, InstructionError>)
    requires
        old(memory).wf(),
        branch_args.wf(),
    ensures
        final(memory).wf(),
        outcome_matches(
            spec_and_outcome(operands, branch_args.cycles@, *old(registers), old(memory)@),
            r,
            *old(registers),
            *final(registers),
            old(memory)@,
            final(memory)@,
        ),
        r is Ok ==> final(registers).wf(),
{
    match operands {
        Operands::Two(target, source) => match (target, source) {
            (Word::Reg8(t), Word::U8(s)) => {
                let a = read_reg8(registers, t);
                let v: u8 = a & s;
                write_reg8(registers, t, v);
                registers.f = make_flags(v == 0, false, true, false);
                Ok(branch_args.cycles[0])
            },
            (Word::Mem8(addr), Word::U8(s)) => {
                let a = memory.read_u8(addr);
                let v: u8 = a & s;
                memory.write_u8(addr, v);
                registers.f = make_flags(v == 0, false, true, false);
                Ok(branch_args.cycles[0])
            },
            (t, s) => Err(InstructionError::IncorrectOperandsError(Operands::Two(t, s))),
        },
        _ => Err(InstructionError::InvalidOperandsError(operands)),
    }
}

/// OR: ors the source into the target slot; H and C clear.
pub fn or(
    registers: &mut CPURegisters,
    memory: &mut Memory,
    operands: Operands,
    branch_args: BranchArgs,
) -> (r: Result<u8, InstructionError>)
    requires
        old(memory).wf(),
        branch_args.wf(),
    ensures
        final(memory).wf(),
        outcome_matches(
            spec_or_outcome(operands, branch_args.cycles@, *old(registers), old(memory)@),
            r,
            *old(registers),
            *final(registers),
            old(memory)@,
            final(memory)@,
        ),
        r is Ok ==> final(registers).wf(),
{
    match operands {
        Operands::Two(target, source) => match (target, source) {
            (Word::Reg8(t), Word::U8(s)) => {
                let a = read_reg8(registers, t);
                let v: u8 = a | s;
                write_reg8(registers, t, v);
                registers.f = make_flags(v == 0, false, false, false);
                Ok(branch_args.cycles[0])
            },
            (Word::Mem8(addr), Word::U8(s)) => {
                let a = memory.read_u8(addr);
                let v: u8 = a | s;
                memory.write_u8(addr, v);
                registers.f = make_flags(v == 0, false, false, false);
                Ok(branch_args.cycles[0])
            },
            (t, s) => Err(InstructionError::IncorrectOperandsError(Operands::Two(t, s))),
        },
        _ => Err(InstructionError::InvalidOperandsError(operands)),
    }
}

/// CP: computes SUB's flags against the target slot without storing the
/// difference.
pub fn cp(
    registers: &mut CPURegisters,
    memory: &mut Memory,
    operands: Operands,
    branch_args: BranchArgs,
) -> (r: Result<u8, InstructionError>)
    requires
        old(memory).wf(),
        branch_args.wf(),
    ensures
        final(memory).wf(),
        outcome_matches(
            spec_cp_outcome(operands, branch_args.cycles@, *old(registers), old(memory)@),
            r,
            *old(registers),
            *final(registers),
            old(memory)@,
            final(memory)@,
        ),
        r is Ok ==> final(registers).wf(),
{
    match operands {
        Operands::Two(target, source) => match (target, source) {
            (Word::Reg8(t), Word::U8(s)) => {
                let a = read_reg8(registers, t);
                let vf = sub_with_flags(a, s);
                registers.f = vf.1;
                Ok(branch_args.cycles[0])
            },
            (Word::Mem8(addr), Word::U8(s)) => {
                let a = memory.read_u8(addr);
                let vf = sub_with_flags(a, s);
                registers.f = vf.1;
                Ok(branch_args.cycles[0])
            },
            (t, s) => Err(InstructionError::IncorrectOperandsError(Operands::Two(t, s))),
        },
        _ => Err(InstructionError::InvalidOperandsError(operands)),
    }
}

/// The operand bundle for an arithmetic/logic opcode.
///
/// In the block 0x80–0xBF the low nibble picks the second source in the
/// order B, C, D, E, H, L, (HL), A, repeated twice; the target is always
/// A. Outside the block, a low nibble of 0x6 or 0xE takes the 8-bit
/// immediate as the source, and a low nibble of 0x9 with a high nibble
/// of 0x0–0x3 is the 16-bit ADD HL,rr.
pub open spec fn spec_arithmetic_operands(
    opcode: u8,
    value: Option<Ret>,
    regs: CPURegisters,
    mem: Seq<u8>,
) -> Result<(Operands, Option<Condition>), InstructionError> {
    let hi = opcode / 16;
    let lo = opcode % 16;
    if 0x80 <= opcode <= 0xBF {
        let source = if lo == 0x0 || lo == 0x8 {
            regs.b
        } else if lo == 0x1 || lo == 0x9 {
            regs.c
        } else if lo == 0x2 || lo == 0xA {
            regs.d
        } else if lo == 0x3 || lo == 0xB {
            regs.e
        } else if lo == 0x4 || lo == 0xC {
            regs.h
        } else if lo == 0x5 || lo == 0xD {
            regs.l
        } else if lo == 0x6 || lo == 0xE {
            mem_read(mem, spec_read_pair(regs, RegPair::HL))
        } else {
            regs.a
        };
        Ok((Operands::Two(Word::Reg8(Reg8::A), Word::U8(source)), None))
    } else if lo == 0x6 || lo == 0xE {
        match value {
            Some(Ret::U8(x)) => Ok((Operands::Two(Word::Reg8(Reg8::A), Word::U8(x)), None)),
            _ => Err(InstructionError::InvalidLiteral(value)),
        }
    } else if lo == 0x9 && hi <= 0x3 {
        let source = if hi == 0x0 {
            spec_read_pair(regs, RegPair::BC)
        } else if hi == 0x1 {
            spec_read_pair(regs, RegPair::DE)
        } else if hi == 0x2 {
            spec_read_pair(regs, RegPair::HL)
        } else {
            regs.sp
        };
        Ok((Operands::Two(Word::Pair(RegPair::HL), Word::U16(source)), None))
    } else {
        Err(InstructionError::UnimplementedError(opcode))
    }
}

/// Decodes the operand bundle for an arithmetic/logic opcode; see
/// [`spec_arithmetic_operands`].
pub fn get_arithmetic_operands(
    registers: &CPURegisters,
    mem: &Memory,
    opcode: u8,
    value: Option<Ret>,
) -> (r: Result<(Operands, Option<Condition>), InstructionError>)
    requires
        mem.wf(),
    ensures
        r == spec_arithmetic_operands(opcode, value, *registers, mem@),
{
    let hi = opcode / 16;
    let lo = opcode % 16;
    if 0x80 <= opcode && opcode <= 0xBF {
        let source: u8 = if lo == 0x0 || lo == 0x8 {
            registers.b
        } else if lo == 0x1 || lo == 0x9 {
            registers.c
        } else if lo == 0x2 || lo == 0xA {
            registers.d
        } else if lo == 0x3 || lo == 0xB {
            registers.e
        } else if lo == 0x4 || lo == 0xC {
            registers.h
        } else if lo == 0x5 || lo == 0xD {
            registers.l
        } else if lo == 0x6 || lo == 0xE {
            mem.read_u8(registers.get_hl())
        } else {
            registers.a
        };
        Ok((Operands::Two(Word::Reg8(Reg8::A), Word::U8(source)), None))
    } else if lo == 0x6 || lo == 0xE {
        match value {
            Some(Ret::U8(x)) => Ok((Operands::Two(Word::Reg8(Reg8::A), Word::U8(x)), None)),
            _ => Err(InstructionError::InvalidLiteral(value)),
        }
    } else if lo == 0x9 && hi <= 0x3 {
        let source: u16 = if hi == 0x0 {
            registers.get_bc()
        } else if hi == 0x1 {
            registers.get_de()
        } else if hi == 0x2 {
            registers.get_hl()
        } else {
            registers.sp
        };
        Ok((Operands::Two(Word::Pair(RegPair::HL), Word::U16(source)), None))
    } else {
        Err(InstructionError::UnimplementedError(opcode))
    }
}

} // verus!
