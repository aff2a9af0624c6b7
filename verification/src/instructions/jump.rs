//! The JP and JR executors and their operand decoder.
//!
//! A conditional branch consults the flag byte: NZ holds when Z is clear,
//! Z when Z is set, NC when C is clear, C when C is set. A taken branch
//! reports the first cycle count, a branch not taken the second.

use vstd::prelude::*;

use crate::cpu_registers::CPURegisters;
use crate::memory::Memory;
use crate::instructions::arithmetic::{outcome_matches, Outcome};
use crate::instructions::utils::{
    check_condition, read_reg16, spec_cond_holds, spec_read_pair, spec_read_reg16,
    spec_write_reg16, write_reg16, BranchArgs, Condition, InstructionError, Operands, Reg16,
    RegPair, Ret, Word,
};

verus! {

/// An 8-bit displacement sign-extended to 16 bits in two's complement.
pub open spec fn spec_sign_extend8(e: u8) -> u16 {
    if e < 128 {
        e as u16
    } else {
        (e + 0xFF00) as u16
    }
}

/// A 16-bit sum reduced into the 16-bit space.
pub open spec fn spec_wrap_add16(a: u16, b: u16) -> u16 {
    ((a + b) % 0x10000) as u16
}

/// The outcome of JP: writes the target address into the 16-bit register
/// slot — taken unconditionally, or when the condition holds.
pub open spec fn spec_jp_outcome(
    operands: Operands,
    cycles: Seq<u8>,
    condition: Option<Condition>,
    regs: CPURegisters,
    mem: Seq<u8>,
) -> Outcome {
    match operands {
        Operands::Two(target, source) => match (target, source) {
            (Word::Reg16(t), Word::U16(address)) => match condition {
                Some(c) => if spec_cond_holds(c, regs.f) {
                    Ok((spec_write_reg16(regs, t, address), mem, cycles[0]))
                } else {
                    Ok((regs, mem, cycles[1]))
                },
                None => Ok((spec_write_reg16(regs, t, address), mem, cycles[0])),
            },
            (t, s) => Err(InstructionError::IncorrectOperandsError(Operands::Two(t, s))),
        },
        _ => Err(InstructionError::InvalidOperandsError(operands)),
    }
}

/// The outcome of JR: adds the sign-extended displacement to the 16-bit
/// register slot — taken unconditionally, or when the condition holds.
pub open spec fn spec_jr_outcome(
    operands: Operands,
    cycles: Seq<u8>,
    condition: Option<Condition>,
    regs: CPURegisters,
    mem: Seq<u8>,
) -> Outcome {
    match operands {
        Operands::Two(target, source) => match (target, source) {
            (Word::Reg16(t), Word::U8(e)) => {
                let dest = spec_wrap_add16(spec_read_reg16(regs, t), spec_sign_extend8(e));
                match condition {
                    Some(c) => if spec_cond_holds(c, regs.f) {
                        Ok((spec_write_reg16(regs, t, dest), mem, cycles[0]))
                    } else {
                        Ok((regs, mem, cycles[1]))
                    },
                    None => Ok((spec_write_reg16(regs, t, dest), mem, cycles[0])),
                }
            },
            (t, s) => Err(InstructionError::IncorrectOperandsError(Operands::Two(t, s))),
        },
        _ => Err(InstructionError::InvalidOperandsError(operands)),
    }
}

/// JP: an absolute jump, conditional when the branch arguments carry a
/// condition.
pub fn jp(
    registers: &mut CPURegisters,
    memory: &mut Memory,
    operands: Operands,
    branch_args: BranchArgs,
) -> (r: Result<u8, InstructionError>)
    requires
        old(memory).wf(),
        branch_args.wf(),
    ensures
        final(memory).wf(),
        outcome_matches(
            spec_jp_outcome(
                operands,
                branch_args.cycles@,
                branch_args.condition,
                *old(registers),
                old(memory)@,
            ),
            r,
            *old(registers),
            *final(registers),
            old(memory)@,
            final(memory)@,
        ),
        old(registers).wf() ==> final(registers).wf(),
{
    match operands {
        Operands::Two(target, source) => match (target, source) {
            (Word::Reg16(t), Word::U16(address)) => match branch_args.condition {
                Some(c) => {
                    if check_condition(registers.f, c) {
                        write_reg16(registers, t, address);
                        Ok(branch_args.cycles[0])
                    } else {
                        Ok(branch_args.cycles[1])
                    }
                },
                None => {
                    write_reg16(registers, t, address);
                    Ok(branch_args.cycles[0])
                },
            },
            (t, s) => Err(InstructionError::IncorrectOperandsError(Operands::Two(t, s))),
        },
        _ => Err(InstructionError::InvalidOperandsError(operands)),
    }
}

/// JR: a relative jump by a signed 8-bit displacement, conditional when
/// the branch arguments carry a condition.
pub fn jr(
    registers: &mut CPURegisters,
    memory: &mut Memory,
    operands: Operands,
    branch_args: BranchArgs,
) -> (r: Result<u8, InstructionError>)
    requires
        old(memory).wf(),
        branch_args.wf(),
    ensures
        final(memory).wf(),
        outcome_matches(
            spec_jr_outcome(
                operands,
                branch_args.cycles@,
                branch_args.condition,
                *old(registers),
                old(memory)@,
            ),
            r,
            *old(registers),
            *final(registers),
            old(memory)@,
            final(memory)@,
        ),
        old(registers).wf() ==> final(registers).wf(),
{
    match operands {
        Operands::Two(target, source) => match (target, source) {
            (Word::Reg16(t), Word::U8(e)) => {
                let base = read_reg16(registers, t);
                let offset: u16 = if e < 128 {
                    e as u16
                } else {
                    e as u16 + 0xFF00
                };
                let dest: u16 = ((base as u32 + offset as u32) % 0x10000) as u16;
                match branch_args.condition {
                    Some(c) => {
                        if check_condition(registers.f, c) {
                            write_reg16(registers, t, dest);
                            Ok(branch_args.cycles[0])
                        } else {
                            Ok(branch_args.cycles[1])
                        }
                    },
                    None => {
                        write_reg16(registers, t, dest);
                        Ok(branch_args.cycles[0])
                    },
                }
            },
            (t, s) => Err(InstructionError::IncorrectOperandsError(Operands::Two(t, s))),
        },
        _ => Err(InstructionError::InvalidOperandsError(operands)),
    }
}

/// The operand bundle and condition for a JP or JR opcode. Absolute
/// jumps take the 16-bit immediate, JP (HL) takes the HL value, and the
/// relative jumps take the 8-bit immediate; the conditional variants
/// carry the canonical NZ, Z, NC or C condition.
pub open spec fn spec_jump_operands(
    opcode: u8,
    value: Option<Ret>,
    regs: CPURegisters,
) -> Result<(Operands, Option<Condition>), InstructionError> {
    let dest = Word::Reg16(Reg16::PC);
    if opcode == 0xC3 || opcode == 0xC2 || opcode == 0xCA || opcode == 0xD2 || opcode == 0xDA {
        match value {
            Some(Ret::U16(address)) => {
                let condition = if opcode == 0xC2 {
                    Some(Condition::NotZero)
                } else if opcode == 0xCA {
                    Some(Condition::Zero)
                } else if opcode == 0xD2 {
                    Some(Condition::NotCarry)
                } else if opcode == 0xDA {
                    Some(Condition::Carry)
                } else {
                    None
                };
                Ok((Operands::Two(dest, Word::U16(address)), condition))
            },
            _ => Err(InstructionError::InvalidLiteral(value)),
        }
    } else if opcode == 0xE9 {
        Ok((Operands::Two(dest, Word::U16(spec_read_pair(regs, RegPair::HL))), None))
    } else if opcode == 0x18 || opcode == 0x20 || opcode == 0x28 || opcode == 0x30 || opcode
        == 0x38 {
        match value {
            Some(Ret::U8(e)) => {
                let condition = if opcode == 0x20 {
                    Some(Condition::NotZero)
                } else if opcode == 0x28 {
                    Some(Condition::Zero)
                } else if opcode == 0x30 {
                    Some(Condition::NotCarry)
                } else if opcode == 0x38 {
                    Some(Condition::Carry)
                } else {
                    None
                };
                Ok((Operands::Two(dest, Word::U8(e)), condition))
            },
            _ => Err(InstructionError::InvalidLiteral(value)),
        }
    } else {
        Err(InstructionError::UnimplementedError(opcode))
    }
}

/// Decodes the operand bundle for a JP or JR opcode; see
/// [`spec_jump_operands`].
pub fn get_jump_operands(
    registers: &CPURegisters,
    mem: &Memory,
    opcode: u8,
    value: Option<Ret>,
) -> (r: Result<(Operands, Option<Condition>), InstructionError>)
    ensures
        r == spec_jump_operands(opcode, value, *registers),
{
    let dest = Word::Reg16(Reg16::PC);
    match opcode {
        0xC3 | 0xC2 | 0xCA | 0xD2 | 0xDA => match value {
            Some(Ret::U16(address)) => {
                let condition = match opcode {
                    0xC2 => Some(Condition::NotZero),
                    0xCA => Some(Condition::Zero),
                    0xD2 => Some(Condition::NotCarry),
                    0xDA => Some(Condition::Carry),
                    _ => None,
                };
                Ok((Operands::Two(dest, Word::U16(address)), condition))
            },
            _ => Err(InstructionError::InvalidLiteral(value)),
        },
        0xE9 => Ok((Operands::Two(dest, Word::U16(registers.get_hl())), None)),
        0x18 | 0x20 | 0x28 | 0x30 | 0x38 => match value {
            Some(Ret::U8(e)) => {
                let condition = match opcode {
                    0x20 => Some(Condition::NotZero),
                    0x28 => Some(Condition::Zero),
                    0x30 => Some(Condition::NotCarry),
                    0x38 => Some(Condition::Carry),
                    _ => None,
                };
                Ok((Operands::Two(dest, Word::U8(e)), condition))
            },
            _ => Err(InstructionError::InvalidLiteral(value)),
        },
        _ => Err(InstructionError::UnimplementedError(opcode)),
    }
}

} // verus!
