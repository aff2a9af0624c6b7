//! The INC and DEC executors and their operand decoder.
//!
//! The 8-bit forms update Z, N and H and leave C untouched; the 16-bit
//! forms touch no flags at all.

use vstd::prelude::*;

use crate::cpu_registers::CPURegisters;
use crate::memory::{mem_read, mem_write, Memory};
use crate::instructions::arithmetic::{outcome_matches, Outcome};
use crate::instructions::utils::{
    flag_c, flags_byte, make_flags, read_pair, read_reg16, read_reg8, spec_read_pair,
    spec_read_reg16, spec_read_reg8, spec_write_pair, spec_write_reg16, spec_write_reg8,
    write_pair, write_reg16, write_reg8, BranchArgs, Condition, InstructionError, Operands, Reg8,
    Reg16, RegPair, Ret, Word,
};

verus! {

/// The result and flag byte of an 8-bit INC: Z = (r == 0), N = 0,
/// H = ((old & 0xF) == 0xF); C is carried over unchanged.
pub open spec fn spec_inc8(v: u8, f: u8) -> (u8, u8) {
    (((v + 1) % 256) as u8, flags_byte((v + 1) % 256 == 0, false, v % 16 == 15, flag_c(f)))
}

/// The result and flag byte of an 8-bit DEC: Z = (r == 0), N = 1,
/// H = ((old & 0xF) == 0); C is carried over unchanged.
pub open spec fn spec_dec8(v: u8, f: u8) -> (u8, u8) {
    (((v + 255) % 256) as u8, flags_byte((v + 255) % 256 == 0, true, v % 16 == 0, flag_c(f)))
}

/// A 16-bit value one higher, wrapping.
pub open spec fn spec_inc16(v: u16) -> u16 {
    ((v + 1) % 0x10000) as u16
}

/// A 16-bit value one lower, wrapping.
pub open spec fn spec_dec16(v: u16) -> u16 {
    ((v + 0xFFFF) % 0x10000) as u16
}

/// Steps a byte up or down by one, returning the result and the flag
/// byte; the carry bit of the given flag byte is carried over.
pub fn ncrementu8_with_flags(target: u8, increment: bool, old_flags: u8) -> (r: (u8, u8))
    ensures
        increment ==> r == spec_inc8(target, old_flags),
        !increment ==> r == spec_dec8(target, old_flags),
        r.1 % 16 == 0,
{
    let wide: u16 = if increment {
        target as u16 + 1
    } else {
        target as u16 + 255
    };
    let result: u8 = (wide % 256) as u8;
    let flags: u8 = make_flags(
        result == 0,
        !increment,
        if increment {
            target % 16 == 15
        } else {
            target % 16 == 0
        },
        old_flags / 16 % 2 == 1,
    );
    (result, flags)
}

/// The outcome of INC: an 8-bit slot takes [`spec_inc8`]'s result and
/// flags, a 16-bit slot wraps around with no flag change.
pub open spec fn spec_inc_outcome(
    operands: Operands,
    cycles: Seq<u8>,
    regs: CPURegisters,
    mem: Seq<u8>,
) -> Outcome {
    match operands {
        Operands::One(target) => match target {
            Word::Reg8(t) => {
                let vf = spec_inc8(spec_read_reg8(regs, t), regs.f);
                Ok((CPURegisters { f: vf.1, ..spec_write_reg8(regs, t, vf.0) }, mem, cycles[0]))
            },
            Word::Mem8(a) => {
                let vf = spec_inc8(mem_read(mem, a), regs.f);
                Ok((CPURegisters { f: vf.1, ..regs }, mem_write(mem, a, vf.0), cycles[0]))
            },
            Word::Pair(p) => Ok(
                (spec_write_pair(regs, p, spec_inc16(spec_read_pair(regs, p))), mem, cycles[0]),
            ),
            Word::Reg16(t) => Ok(
                (spec_write_reg16(regs, t, spec_inc16(spec_read_reg16(regs, t))), mem, cycles[0]),
            ),
            w => Err(InstructionError::IncorrectOperandsError(Operands::One(w))),
        },
        _ => Err(InstructionError::InvalidOperandsError(operands)),
    }
}

/// The outcome of DEC; the mirror of [`spec_inc_outcome`].
pub open spec fn spec_dec_outcome(
    operands: Operands,
    cycles: Seq<u8>,
    regs: CPURegisters,
    mem: Seq<u8>,
) -> Outcome {
    match operands {
        Operands::One(target) => match target {
            Word::Reg8(t) => {
                let vf = spec_dec8(spec_read_reg8(regs, t), regs.f);
                Ok((CPURegisters { f: vf.1, ..spec_write_reg8(regs, t, vf.0) }, mem, cycles[0]))
            },
            Word::Mem8(a) => {
                let vf = spec_dec8(mem_read(mem, a), regs.f);
                Ok((CPURegisters { f: vf.1, ..regs }, mem_write(mem, a, vf.0), cycles[0]))
            },
            Word::Pair(p) => Ok(
                (spec_write_pair(regs, p, spec_dec16(spec_read_pair(regs, p))), mem, cycles[0]),
            ),
            Word::Reg16(t) => Ok(
                (spec_write_reg16(regs, t, spec_dec16(spec_read_reg16(regs, t))), mem, cycles[0]),
            ),
            w => Err(InstructionError::IncorrectOperandsError(Operands::One(w))),
        },
        _ => Err(InstructionError::InvalidOperandsError(operands)),
    }
}

/// INC: steps the slot up by one; 8-bit slots update Z, N, H and keep C,
/// 16-bit slots touch no flags.
pub fn inc(
    registers: &mut CPURegisters,
    memory: &mut Memory,
    operands: Operands,
    branch_args: BranchArgs,
) -> (r: Result<u8, InstructionError>)
    requires
        old(memory).wf(),
        branch_args.wf(),
    ensures
        final(memory).wf(),
        outcome_matches(
            spec_inc_outcome(operands, branch_args.cycles@, *old(registers), old(memory)@),
            r,
            *old(registers),
            *final(registers),
            old(memory)@,
            final(memory)@,
        ),
        old(registers).wf() ==> final(registers).wf(),
{
    match operands {
        Operands::One(target) => match target {
            Word::Reg8(t) => {
                let a = read_reg8(registers, t);
                let vf = ncrementu8_with_flags(a, true, registers.f);
                write_reg8(registers, t, vf.0);
                registers.f = vf.1;
                Ok(branch_args.cycles[0])
            },
            Word::Mem8(addr) => {
                let a = memory.read_u8(addr);
                let vf = ncrementu8_with_flags(a, true, registers.f);
                memory.write_u8(addr, vf.0);
                registers.f = vf.1;
                Ok(branch_args.cycles[0])
            },
            Word::Pair(p) => {
                let v = read_pair(registers, p);
                let v2: u16 = ((v as u32 + 1) % 0x10000) as u16;
                write_pair(registers, p, v2);
                Ok(branch_args.cycles[0])
            },
            Word::Reg16(t) => {
                let v = read_reg16(registers, t);
                let v2: u16 = ((v as u32 + 1) % 0x10000) as u16;
                write_reg16(registers, t, v2);
                Ok(branch_args.cycles[0])
            },
            w => Err(InstructionError::IncorrectOperandsError(Operands::One(w))),
        },
        _ => Err(InstructionError::InvalidOperandsError(operands)),
    }
}

/// DEC: steps the slot down by one; the mirror of [`inc`].
pub fn dec(
    registers: &mut CPURegisters,
    memory: &mut Memory,
    operands: Operands,
    branch_args: BranchArgs,
) -> (r: Result<u8, InstructionError>)
    requires
        old(memory).wf(),
        branch_args.wf(),
    ensures
        final(memory).wf(),
        outcome_matches(
            spec_dec_outcome(operands, branch_args.cycles@, *old(registers), old(memory)@),
            r,
            *old(registers),
            *final(registers),
            old(memory)@,
            final(memory)@,
        ),
        old(registers).wf() ==> final(registers).wf(),
{
    match operands {
        Operands::One(target) => match target {
            Word::Reg8(t) => {
                let a = read_reg8(registers, t);
                let vf = ncrementu8_with_flags(a, false, registers.f);
                write_reg8(registers, t, vf.0);
                registers.f = vf.1;
                Ok(branch_args.cycles[0])
            },
            Word::Mem8(addr) => {
                let a = memory.read_u8(addr);
                let vf = ncrementu8_with_flags(a, false, registers.f);
                memory.write_u8(addr, vf.0);
                registers.f = vf.1;
                Ok(branch_args.cycles[0])
            },
            Word::Pair(p) => {
                let v = read_pair(registers, p);
                let v2: u16 = ((v as u32 + 0xFFFF) % 0x10000) as u16;
                write_pair(registers, p, v2);
                Ok(branch_args.cycles[0])
            },
            Word::Reg16(t) => {
                let v = read_reg16(registers, t);
                let v2: u16 = ((v as u32 + 0xFFFF) % 0x10000) as u16;
                write_reg16(registers, t, v2);
                Ok(branch_args.cycles[0])
            },
            w => Err(InstructionError::IncorrectOperandsError(Operands::One(w))),
        },
        _ => Err(InstructionError::InvalidOperandsError(operands)),
    }
}

/// The slot an INC or DEC opcode works on: 16-bit register pairs and SP
/// in the column 0x3/0xB, the 8-bit registers and (HL) in the columns
/// 0x4, 0x5, 0xC and 0xD.
pub open spec fn spec_ncrement_operands(
    opcode: u8,
    regs: CPURegisters,
) -> Result<(Operands, Option<Condition>), InstructionError> {
    if opcode == 0x03 || opcode == 0x0B {
        Ok((Operands::One(Word::Pair(RegPair::BC)), None))
    } else if opcode == 0x13 || opcode == 0x1B {
        Ok((Operands::One(Word::Pair(RegPair::DE)), None))
    } else if opcode == 0x23 || opcode == 0x2B {
        Ok((Operands::One(Word::Pair(RegPair::HL)), None))
    } else if opcode == 0x33 || opcode == 0x3B {
        Ok((Operands::One(Word::Reg16(Reg16::SP)), None))
    } else if opcode == 0x04 || opcode == 0x05 {
        Ok((Operands::One(Word::Reg8(Reg8::B)), None))
    } else if opcode == 0x0C || opcode == 0x0D {
        Ok((Operands::One(Word::Reg8(Reg8::C)), None))
    } else if opcode == 0x14 || opcode == 0x15 {
        Ok((Operands::One(Word::Reg8(Reg8::D)), None))
    } else if opcode == 0x1C || opcode == 0x1D {
        Ok((Operands::One(Word::Reg8(Reg8::E)), None))
    } else if opcode == 0x24 || opcode == 0x25 {
        Ok((Operands::One(Word::Reg8(Reg8::H)), None))
    } else if opcode == 0x2C || opcode == 0x2D {
        Ok((Operands::One(Word::Reg8(Reg8::L)), None))
    } else if opcode == 0x34 || opcode == 0x35 {
        Ok((Operands::One(Word::Mem8(spec_read_pair(regs, RegPair::HL))), None))
    } else if opcode == 0x3C || opcode == 0x3D {
        Ok((Operands::One(Word::Reg8(Reg8::A)), None))
    } else {
        Err(InstructionError::UnimplementedError(opcode))
    }
}

/// Decodes the slot for an INC or DEC opcode; see
/// [`spec_ncrement_operands`].
pub fn get_ncrement_operands(
    registers: &CPURegisters,
    mem: &Memory,
    opcode: u8,
    value: Option<Ret>,
) -> (r: Result<(Operands, Option<Condition>), InstructionError>)
    ensures
        r == spec_ncrement_operands(opcode, *registers),
{
    let dest = match opcode {
        0x03 | 0x0B => Word::Pair(RegPair::BC),
        0x13 | 0x1B => Word::Pair(RegPair::DE),
        0x23 | 0x2B => Word::Pair(RegPair::HL),
        0x33 | 0x3B => Word::Reg16(Reg16::SP),
        0x04 | 0x05 => Word::Reg8(Reg8::B),
        0x0C | 0x0D => Word::Reg8(Reg8::C),
        0x14 | 0x15 => Word::Reg8(Reg8::D),
        0x1C | 0x1D => Word::Reg8(Reg8::E),
        0x24 | 0x25 => Word::Reg8(Reg8::H),
        0x2C | 0x2D => Word::Reg8(Reg8::L),
        0x34 | 0x35 => Word::Mem8(registers.get_hl()),
        0x3C | 0x3D => Word::Reg8(Reg8::A),
        _ => {
            return Err(InstructionError::UnimplementedError(opcode));
        },
    };
    Ok((Operands::One(dest), None))
}

} // verus!
