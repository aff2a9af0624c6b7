//! The PUSH/POP, RET and CALL executors and their operand decoders.
//!
//! A stack slot is two adjacent memory bytes holding a little-endian
//! 16-bit word. PUSH decrements SP by two first and stores at the new SP;
//! POP reads at SP and then increments it by two. CALL pushes the address
//! of the following instruction and jumps; RET pops into PC. POP into AF
//! masks the low nibble of F to zero.

use vstd::prelude::*;

use crate::cpu_registers::CPURegisters;
use crate::memory::{mem_read16, mem_write16, Memory};
use crate::instructions::arithmetic::{outcome_matches, Outcome};
use crate::instructions::utils::{
    check_condition, read_pair, read_reg16, spec_cond_holds, spec_read_pair, spec_read_reg16,
    spec_write_pair, spec_write_reg16, write_pair, write_reg16, BranchArgs, Condition,
    InstructionError, Operands, Reg16, RegPair, Ret, Word,
};

verus! {

/// A 16-bit value two higher, wrapping.
pub open spec fn spec_sp_plus2(v: u16) -> u16 {
    ((v + 2) % 0x10000) as u16
}

/// A 16-bit value two lower, wrapping.
pub open spec fn spec_sp_minus2(v: u16) -> u16 {
    ((v + 0xFFFE) % 0x10000) as u16
}

/// The 16-bit value behind a pair-like slot: a register pair, or two
/// adjacent memory bytes read little-endian.
pub open spec fn spec_pairlike_read(w: Word, regs: CPURegisters, mem: Seq<u8>) -> Option<u16> {
    match w {
        Word::Pair(p) => Some(spec_read_pair(regs, p)),
        Word::Mem16(a) => Some(mem_read16(mem, a)),
        _ => None,
    }
}

/// The state after writing a 16-bit value through a pair-like slot.
pub open spec fn spec_pairlike_write(w: Word, regs: CPURegisters, mem: Seq<u8>, v: u16) -> Option<
    (CPURegisters, Seq<u8>),
> {
    match w {
        Word::Pair(p) => Some((spec_write_pair(regs, p, v), mem)),
        Word::Mem16(a) => Some((regs, mem_write16(mem, a, v))),
        _ => None,
    }
}

/// Reads a pair-like slot, or nothing if the slot is not pair-like.
fn read_pairlike(regs: &CPURegisters, mem: &Memory, w: Word) -> (r: Option<u16>)
    requires
        mem.wf(),
    ensures
        r == spec_pairlike_read(w, *regs, mem@),
{
    match w {
        Word::Pair(p) => Some(read_pair(regs, p)),
        Word::Mem16(a) => Some(mem.read_u16(a)),
        _ => None,
    }
}

/// Writes through a pair-like slot; reports whether the slot accepted
/// the write, and leaves the state untouched when it did not.
fn write_pairlike(regs: &mut CPURegisters, mem: &mut Memory, w: Word, v: u16) -> (ok: bool)
    requires
        old(mem).wf(),
    ensures
        final(mem).wf(),
        match spec_pairlike_write(w, *old(regs), old(mem)@, v) {
            Some(rm) => ok && *final(regs) == rm.0 && final(mem)@ == rm.1,
            None => !ok && *final(regs) == *old(regs) && final(mem)@ == old(mem)@,
        },
        old(regs).wf() ==> final(regs).wf(),
{
    match w {
        Word::Pair(p) => {
            write_pair(regs, p, v);
            true
        },
        Word::Mem16(a) => {
            mem.write_u16(a, v);
            true
        },
        _ => false,
    }
}

/// The outcome of PUSH and POP: the source slot's 16-bit value moves
/// into the target slot.
pub open spec fn spec_push_pop_outcome(
    operands: Operands,
    cycles: Seq<u8>,
    regs: CPURegisters,
    mem: Seq<u8>,
) -> Outcome {
    match operands {
        Operands::Two(target, source) => match spec_pairlike_read(source, regs, mem) {
            Some(v) => match spec_pairlike_write(target, regs, mem, v) {
                Some(rm) => Ok((rm.0, rm.1, cycles[0])),
                None => Err(InstructionError::IncorrectOperandsError(Operands::Two(target, source))),
            },
            None => Err(InstructionError::IncorrectOperandsError(Operands::Two(target, source))),
        },
        _ => Err(InstructionError::InvalidOperandsError(operands)),
    }
}

/// The outcome of RET: when taken, PC is popped off the stack slot and
/// SP moves up by two.
pub open spec fn spec_ret_outcome(
    operands: Operands,
    cycles: Seq<u8>,
    condition: Option<Condition>,
    regs: CPURegisters,
    mem: Seq<u8>,
) -> Outcome {
    match operands {
        Operands::Ret(pc_slot, stack_slot, sp_slot) => match (pc_slot, stack_slot, sp_slot) {
            (Word::Reg16(tpc), Word::Mem16(a), Word::Reg16(tsp)) => {
                let taken = match condition {
                    Some(c) => spec_cond_holds(c, regs.f),
                    None => true,
                };
                if taken {
                    let pcv = mem_read16(mem, a);
                    let spv = spec_sp_plus2(spec_read_reg16(regs, tsp));
                    Ok(
                        (
                            spec_write_reg16(spec_write_reg16(regs, tpc, pcv), tsp, spv),
                            mem,
                            cycles[0],
                        ),
                    )
                } else {
                    Ok((regs, mem, cycles[1]))
                }
            },
            (a, b, c) => Err(InstructionError::IncorrectOperandsError(Operands::Ret(a, b, c))),
        },
        _ => Err(InstructionError::InvalidOperandsError(operands)),
    }
}

/// The outcome of CALL: when taken, the PC slot's value is pushed into
/// the stack slot, SP moves down by two, and PC takes the target.
pub open spec fn spec_call_outcome(
    operands: Operands,
    cycles: Seq<u8>,
    condition: Option<Condition>,
    regs: CPURegisters,
    mem: Seq<u8>,
) -> Outcome {
    match operands {
        Operands::Call(stack_slot, pc_slot, sp_slot, target) => match (
            stack_slot,
            pc_slot,
            sp_slot,
            target,
        ) {
            (Word::Mem16(a), Word::Reg16(tpc), Word::Reg16(tsp), Word::U16(address)) => {
                let taken = match condition {
                    Some(c) => spec_cond_holds(c, regs.f),
                    None => true,
                };
                if taken {
                    let mem2 = mem_write16(mem, a, spec_read_reg16(regs, tpc));
                    let spv = spec_sp_minus2(spec_read_reg16(regs, tsp));
                    Ok(
                        (
                            spec_write_reg16(spec_write_reg16(regs, tsp, spv), tpc, address),
                            mem2,
                            cycles[0],
                        ),
                    )
                } else {
                    Ok((regs, mem, cycles[1]))
                }
            },
            (a, b, c, d) => Err(
                InstructionError::IncorrectOperandsError(Operands::Call(a, b, c, d)),
            ),
        },
        _ => Err(InstructionError::InvalidOperandsError(operands)),
    }
}

/// PUSH and POP: moves a 16-bit value between a register pair and a
/// stack slot; a store into AF masks the low nibble of F.
pub fn push_pop(
    registers: &mut CPURegisters,
    memory: &mut Memory,
    operands: Operands,
    branch_args: BranchArgs,
) -> (r: Result<u8, InstructionError>)
    requires
        old(memory).wf(),
        branch_args.wf(),
    ensures
        final(memory).wf(),
        outcome_matches(
            spec_push_pop_outcome(operands, branch_args.cycles@, *old(registers), old(memory)@),
            r,
            *old(registers),
            *final(registers),
            old(memory)@,
            final(memory)@,
        ),
        old(registers).wf() ==> final(registers).wf(),
{
    match operands {
        Operands::Two(target, source) => match read_pairlike(registers, memory, source) {
            Some(v) => {
                if write_pairlike(registers, memory, target, v) {
                    Ok(branch_args.cycles[0])
                } else {
                    Err(InstructionError::IncorrectOperandsError(Operands::Two(target, source)))
                }
            },
            None => Err(InstructionError::IncorrectOperandsError(Operands::Two(target, source))),
        },
        _ => Err(InstructionError::InvalidOperandsError(operands)),
    }
}

/// RET: pops the return address into PC when taken.
pub fn ret(
    registers: &mut CPURegisters,
    memory: &mut Memory,
    operands: Operands,
    branch_args: BranchArgs,
) -> (r: Result<u8, InstructionError>)
    requires
        old(memory).wf(),
        branch_args.wf(),
    ensures
        final(memory).wf(),
        outcome_matches(
            spec_ret_outcome(
                operands,
                branch_args.cycles@,
                branch_args.condition,
                *old(registers),
                old(memory)@,
            ),
            r,
            *old(registers),
            *final(registers),
            old(memory)@,
            final(memory)@,
        ),
        old(registers).wf() ==> final(registers).wf(),
{
    match operands {
        Operands::Ret(pc_slot, stack_slot, sp_slot) => match (pc_slot, stack_slot, sp_slot) {
            (Word::Reg16(tpc), Word::Mem16(a), Word::Reg16(tsp)) => {
                let taken = match branch_args.condition {
                    Some(c) => check_condition(registers.f, c),
                    None => true,
                };
                if taken {
                    let pcv = memory.read_u16(a);
                    let sp0 = read_reg16(registers, tsp);
                    let spv: u16 = ((sp0 as u32 + 2) % 0x10000) as u16;
                    write_reg16(registers, tpc, pcv);
                    write_reg16(registers, tsp, spv);
                    Ok(branch_args.cycles[0])
                } else {
                    Ok(branch_args.cycles[1])
                }
            },
            (a, b, c) => Err(InstructionError::IncorrectOperandsError(Operands::Ret(a, b, c))),
        },
        _ => Err(InstructionError::InvalidOperandsError(operands)),
    }
}

/// CALL: pushes the address of the following instruction and jumps when
/// taken.
pub fn call(
    registers: &mut CPURegisters,
    memory: &mut Memory,
    operands: Operands,
    branch_args: BranchArgs,
) -> (r: Result<u8, InstructionError>)
    requires
        old(memory).wf(),
        branch_args.wf(),
    ensures
        final(memory).wf(),
        outcome_matches(
            spec_call_outcome(
                operands,
                branch_args.cycles@,
                branch_args.condition,
                *old(registers),
                old(memory)@,
            ),
            r,
            *old(registers),
            *final(registers),
            old(memory)@,
            final(memory)@,
        ),
        old(registers).wf() ==> final(registers).wf(),
{
    match operands {
        Operands::Call(stack_slot, pc_slot, sp_slot, target) => match (
            stack_slot,
            pc_slot,
            sp_slot,
            target,
        ) {
            (Word::Mem16(a), Word::Reg16(tpc), Word::Reg16(tsp), Word::U16(address)) => {
                let taken = match branch_args.condition {
                    Some(c) => check_condition(registers.f, c),
                    None => true,
                };
                if taken {
                    let pcv = read_reg16(registers, tpc);
                    memory.write_u16(a, pcv);
                    let sp0 = read_reg16(registers, tsp);
                    let spv: u16 = ((sp0 as u32 + 0xFFFE) % 0x10000) as u16;
                    write_reg16(registers, tsp, spv);
                    write_reg16(registers, tpc, address);
                    Ok(branch_args.cycles[0])
                } else {
                    Ok(branch_args.cycles[1])
                }
            },
            (a, b, c, d) => Err(
                InstructionError::IncorrectOperandsError(Operands::Call(a, b, c, d)),
            ),
        },
        _ => Err(InstructionError::InvalidOperandsError(operands)),
    }
}

/// The operand bundle for a PUSH or POP opcode, and the register file
/// after the decoder has moved SP. The high nibble picks the pair (0xC
/// BC, 0xD DE, 0xE HL, 0xF AF); PUSH moves SP down by two before the
/// store, POP moves it up by two after naming the load slot.
pub open spec fn spec_stack_operands(opcode: u8, regs: CPURegisters) -> Result<
    (CPURegisters, Operands, Option<Condition>),
    InstructionError,
> {
    let hi = opcode / 16;
    let lo = opcode % 16;
    if hi < 0xC {
        Err(InstructionError::UnimplementedError(opcode))
    } else {
        let pair = if hi == 0xC {
            RegPair::BC
        } else if hi == 0xD {
            RegPair::DE
        } else if hi == 0xE {
            RegPair::HL
        } else {
            RegPair::AF
        };
        if lo == 0x5 {
            let nsp = spec_sp_minus2(regs.sp);
            Ok(
                (
                    CPURegisters { sp: nsp, ..regs },
                    Operands::Two(Word::Mem16(nsp), Word::Pair(pair)),
                    None,
                ),
            )
        } else if lo == 0x1 {
            Ok(
                (
                    CPURegisters { sp: spec_sp_plus2(regs.sp), ..regs },
                    Operands::Two(Word::Pair(pair), Word::Mem16(regs.sp)),
                    None,
                ),
            )
        } else {
            Err(InstructionError::UnimplementedError(opcode))
        }
    }
}

/// Decodes the operand bundle for a PUSH or POP opcode and moves SP;
/// see [`spec_stack_operands`]. On an error the register file is left
/// untouched.
pub fn get_stack_operands(
    registers: &mut CPURegisters,
    mem: &Memory,
    opcode: u8,
    value: Option<Ret>,
) -> (r: Result<(Operands, Option<Condition>), InstructionError>)
    ensures
        match spec_stack_operands(opcode, *old(registers)) {
            Ok(s) => r == Ok::<(Operands, Option<Condition>), InstructionError>((s.1, s.2))
                && *final(registers) == s.0,
            Err(e) => r == Err::<(Operands, Option<Condition>), InstructionError>(e)
                && *final(registers) == *old(registers),
        },
        final(registers).f == old(registers).f,
{
    let hi = opcode / 16;
    let lo = opcode % 16;
    if hi < 0xC {
        return Err(InstructionError::UnimplementedError(opcode));
    }
    let pair = if hi == 0xC {
        RegPair::BC
    } else if hi == 0xD {
        RegPair::DE
    } else if hi == 0xE {
        RegPair::HL
    } else {
        RegPair::AF
    };
    if lo == 0x5 {
        let nsp: u16 = ((registers.sp as u32 + 0xFFFE) % 0x10000) as u16;
        registers.sp = nsp;
        Ok((Operands::Two(Word::Mem16(nsp), Word::Pair(pair)), None))
    } else if lo == 0x1 {
        let slot: u16 = registers.sp;
        registers.sp = ((registers.sp as u32 + 2) % 0x10000) as u16;
        Ok((Operands::Two(Word::Pair(pair), Word::Mem16(slot)), None))
    } else {
        Err(InstructionError::UnimplementedError(opcode))
    }
}

/// The operand bundle and condition for a RET or RETI opcode: PC, the
/// stack slot at SP, and SP itself, with the canonical condition for the
/// conditional variants.
pub open spec fn spec_ret_operands(opcode: u8, regs: CPURegisters) -> Result<
    (Operands, Option<Condition>),
    InstructionError,
> {
    let ops = Operands::Ret(
        Word::Reg16(Reg16::PC),
        Word::Mem16(regs.sp),
        Word::Reg16(Reg16::SP),
    );
    if opcode == 0xC0 {
        Ok((ops, Some(Condition::NotZero)))
    } else if opcode == 0xC8 {
        Ok((ops, Some(Condition::Zero)))
    } else if opcode == 0xC9 {
        Ok((ops, None))
    } else if opcode == 0xD0 {
        Ok((ops, Some(Condition::NotCarry)))
    } else if opcode == 0xD8 {
        Ok((ops, Some(Condition::Carry)))
    } else if opcode == 0xD9 {
        Ok((ops, None))
    } else {
        Err(InstructionError::UnimplementedError(opcode))
    }
}

/// Decodes the operand bundle for a RET or RETI opcode; see
/// [`spec_ret_operands`].
pub fn get_ret_operands(
    registers: &CPURegisters,
    mem: &Memory,
    opcode: u8,
    value: Option<Ret>,
) -> (r: Result<(Operands, Option<Condition>), InstructionError>)
    ensures
        r == spec_ret_operands(opcode, *registers),
{
    let ops = Operands::Ret(
        Word::Reg16(Reg16::PC),
        Word::Mem16(registers.sp),
        Word::Reg16(Reg16::SP),
    );
    let condition = match opcode {
        0xC0 => Some(Condition::NotZero),
        0xC8 => Some(Condition::Zero),
        0xC9 => None,
        0xD0 => Some(Condition::NotCarry),
        0xD8 => Some(Condition::Carry),
        0xD9 => None,
        _ => {
            return Err(InstructionError::UnimplementedError(opcode));
        },
    };
    Ok((ops, condition))
}

/// The operand bundle and condition for a CALL opcode: the stack slot
/// two below SP, PC, SP, and the 16-bit immediate target.
pub open spec fn spec_call_operands(opcode: u8, value: Option<Ret>, regs: CPURegisters) -> Result<
    (Operands, Option<Condition>),
    InstructionError,
> {
    match value {
        Some(Ret::U16(address)) => {
            let ops = Operands::Call(
                Word::Mem16(spec_sp_minus2(regs.sp)),
                Word::Reg16(Reg16::PC),
                Word::Reg16(Reg16::SP),
                Word::U16(address),
            );
            if opcode == 0xC4 {
                Ok((ops, Some(Condition::NotZero)))
            } else if opcode == 0xCC {
                Ok((ops, Some(Condition::Zero)))
            } else if opcode == 0xCD {
                Ok((ops, None))
            } else if opcode == 0xD4 {
                Ok((ops, Some(Condition::NotCarry)))
            } else if opcode == 0xDC {
                Ok((ops, Some(Condition::Carry)))
            } else {
                Err(InstructionError::UnimplementedError(opcode))
            }
        },
        _ => Err(InstructionError::InvalidLiteral(value)),
    }
}

/// Decodes the operand bundle for a CALL opcode; see
/// [`spec_call_operands`].
pub fn get_call_operands(
    registers: &CPURegisters,
    mem: &Memory,
    opcode: u8,
    value: Option<Ret>,
) -> (r: Result<(Operands, Option<Condition>), InstructionError>)
    ensures
        r == spec_call_operands(opcode, value, *registers),
{
    let address = match value {
        Some(Ret::U16(x)) => x,
        _ => {
            return Err(InstructionError::InvalidLiteral(value));
        },
    };
    let ops = Operands::Call(
        Word::Mem16(((registers.sp as u32 + 0xFFFE) % 0x10000) as u16),
        Word::Reg16(Reg16::PC),
        Word::Reg16(Reg16::SP),
        Word::U16(address),
    );
    let condition = match opcode {
        0xC4 => Some(Condition::NotZero),
        0xCC => Some(Condition::Zero),
        0xCD => None,
        0xD4 => Some(Condition::NotCarry),
        0xDC => Some(Condition::Carry),
        _ => {
            return Err(InstructionError::UnimplementedError(opcode));
        },
    };
    Ok((ops, condition))
}

} // verus!
