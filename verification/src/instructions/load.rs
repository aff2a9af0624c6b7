//! The LD executor and its operand decoder: register-to-register moves,
//! 16-bit immediate loads, indirect loads through BC, DE and HL with the
//! HL post-increment and post-decrement forms, high-page I/O at
//! 0xFF00 + offset, the SP store, and LD HL,SP+e8.
//!
//! The post-increment and post-decrement forms read or write memory at
//! the HL value before the step; HL moves immediately afterwards.

use vstd::prelude::*;

use crate::cpu_registers::CPURegisters;
use crate::memory::{mem_read, mem_write, mem_write16, Memory};
use crate::instructions::arithmetic::{outcome_matches, Outcome};
use crate::instructions::jump::{spec_sign_extend8, spec_wrap_add16};
use crate::instructions::utils::{
    flags_byte, make_flags, spec_read_pair, spec_write_pair, spec_write_reg16, spec_write_reg8,
    BranchArgs, Condition, InstructionError, Operands, Reg8, Reg16, RegPair, Ret, Word,
};

verus! {

/// The outcome of LD: the source value moves into the target slot; no
/// flag changes (the LD HL,SP+e8 flags are the decoder's doing).
pub open spec fn spec_ld_outcome(
    operands: Operands,
    cycles: Seq<u8>,
    regs: CPURegisters,
    mem: Seq<u8>,
) -> Outcome {
    match operands {
        Operands::Two(target, source) => match (target, source) {
            (Word::Reg8(t), Word::U8(v)) => Ok((spec_write_reg8(regs, t, v), mem, cycles[0])),
            (Word::Mem8(a), Word::U8(v)) => Ok((regs, mem_write(mem, a, v), cycles[0])),
            (Word::Pair(p), Word::U16(v)) => Ok((spec_write_pair(regs, p, v), mem, cycles[0])),
            (Word::Reg16(t), Word::U16(v)) => Ok((spec_write_reg16(regs, t, v), mem, cycles[0])),
            (Word::Mem16(a), Word::U16(v)) => Ok((regs, mem_write16(mem, a, v), cycles[0])),
            (t, s) => Err(InstructionError::IncorrectOperandsError(Operands::Two(t, s))),
        },
        _ => Err(InstructionError::InvalidOperandsError(operands)),
    }
}

/// LD: moves the source value into the target slot.
pub fn ld(
    registers: &mut CPURegisters,
    memory: &mut Memory,
    operands: Operands,
    branch_args: BranchArgs,
) -> (r: Result<u8, InstructionError>)
    requires
        old(memory).wf(),
        branch_args.wf(),
    ensures
        final(memory).wf(),
        outcome_matches(
            spec_ld_outcome(operands, branch_args.cycles@, *old(registers), old(memory)@),
            r,
            *old(registers),
            *final(registers),
            old(memory)@,
            final(memory)@,
        ),
        old(registers).wf() ==> final(registers).wf(),
{
    match operands {
        Operands::Two(target, source) => match (target, source) {
            (Word::Reg8(t), Word::U8(v)) => {
                crate::instructions::utils::write_reg8(registers, t, v);
                Ok(branch_args.cycles[0])
            },
            (Word::Mem8(a), Word::U8(v)) => {
                memory.write_u8(a, v);
                Ok(branch_args.cycles[0])
            },
            (Word::Pair(p), Word::U16(v)) => {
                crate::instructions::utils::write_pair(registers, p, v);
                Ok(branch_args.cycles[0])
            },
            (Word::Reg16(t), Word::U16(v)) => {
                crate::instructions::utils::write_reg16(registers, t, v);
                Ok(branch_args.cycles[0])
            },
            (Word::Mem16(a), Word::U16(v)) => {
                memory.write_u16(a, v);
                Ok(branch_args.cycles[0])
            },
            (t, s) => Err(InstructionError::IncorrectOperandsError(Operands::Two(t, s))),
        },
        _ => Err(InstructionError::InvalidOperandsError(operands)),
    }
}

/// The source byte an opcode in the block 0x40–0x7F names: B, C, D, E,
/// H, L, the byte at (HL), or A, in column order, repeated twice.
pub open spec fn spec_ld_block_source(lo8: u8, regs: CPURegisters, mem: Seq<u8>) -> u8 {
    if lo8 == 0 {
        regs.b
    } else if lo8 == 1 {
        regs.c
    } else if lo8 == 2 {
        regs.d
    } else if lo8 == 3 {
        regs.e
    } else if lo8 == 4 {
        regs.h
    } else if lo8 == 5 {
        regs.l
    } else if lo8 == 6 {
        mem_read(mem, spec_read_pair(regs, RegPair::HL))
    } else {
        regs.a
    }
}

/// The flag byte of LD HL,SP+e8: Z and N clear, H and C computed on the
/// low byte of SP as though `SP_low + e8` were an 8-bit unsigned add.
pub open spec fn spec_sp_offset_flags(sp: u16, e: u8) -> u8 {
    flags_byte(false, false, sp % 256 % 16 + e % 16 > 15, sp % 256 + e > 255)
}

/// The operand bundle for an LD opcode, and the register file after the
/// decoder's own effects: the HL post-increment and post-decrement
/// forms move HL, and LD HL,SP+e8 writes its flag byte.
pub open spec fn spec_ld_operands(
    opcode: u8,
    value: Option<Ret>,
    regs: CPURegisters,
    mem: Seq<u8>,
) -> Result<(CPURegisters, Operands), InstructionError> {
    let hi = opcode / 16;
    let lo = opcode % 16;
    let hl = spec_read_pair(regs, RegPair::HL);
    if opcode == 0x76 {
        Err(InstructionError::UnimplementedError(opcode))
    } else if 0x40 <= opcode <= 0x7F {
        let source = Word::U8(spec_ld_block_source(lo % 8, regs, mem));
        let dest = if hi == 4 {
            if lo <= 7 {
                Word::Reg8(Reg8::B)
            } else {
                Word::Reg8(Reg8::C)
            }
        } else if hi == 5 {
            if lo <= 7 {
                Word::Reg8(Reg8::D)
            } else {
                Word::Reg8(Reg8::E)
            }
        } else if hi == 6 {
            if lo <= 7 {
                Word::Reg8(Reg8::H)
            } else {
                Word::Reg8(Reg8::L)
            }
        } else {
            if lo <= 7 {
                Word::Mem8(hl)
            } else {
                Word::Reg8(Reg8::A)
            }
        };
        Ok((regs, Operands::Two(dest, source)))
    } else if lo == 0x0 && (hi == 0xE || hi == 0xF) {
        match value {
            Some(Ret::U8(offset)) => {
                let address = (0xFF00 + offset) as u16;
                if hi == 0xE {
                    Ok((regs, Operands::Two(Word::Mem8(address), Word::U8(regs.a))))
                } else {
                    Ok((regs, Operands::Two(Word::Reg8(Reg8::A), Word::U8(mem_read(mem, address)))))
                }
            },
            _ => Err(InstructionError::InvalidLiteral(value)),
        }
    } else if lo == 0x1 && hi <= 0x3 {
        match value {
            Some(Ret::U16(v)) => {
                let dest = if hi == 0x0 {
                    Word::Pair(RegPair::BC)
                } else if hi == 0x1 {
                    Word::Pair(RegPair::DE)
                } else if hi == 0x2 {
                    Word::Pair(RegPair::HL)
                } else {
                    Word::Reg16(Reg16::SP)
                };
                Ok((regs, Operands::Two(dest, Word::U16(v))))
            },
            _ => Err(InstructionError::InvalidLiteral(value)),
        }
    } else if lo == 0x2 && hi <= 0x3 {
        let source = Word::U8(regs.a);
        if hi == 0x0 {
            Ok((regs, Operands::Two(Word::Mem8(spec_read_pair(regs, RegPair::BC)), source)))
        } else if hi == 0x1 {
            Ok((regs, Operands::Two(Word::Mem8(spec_read_pair(regs, RegPair::DE)), source)))
        } else if hi == 0x2 {
            let regs2 = spec_write_pair(regs, RegPair::HL, spec_wrap_add16(hl, 1));
            Ok((regs2, Operands::Two(Word::Mem8(hl), source)))
        } else {
            let regs2 = spec_write_pair(regs, RegPair::HL, spec_wrap_add16(hl, 0xFFFF));
            Ok((regs2, Operands::Two(Word::Mem8(hl), source)))
        }
    } else if lo == 0x2 && (hi == 0xE || hi == 0xF) {
        let address = (0xFF00 + regs.c) as u16;
        if hi == 0xE {
            Ok((regs, Operands::Two(Word::Mem8(address), Word::U8(regs.a))))
        } else {
            Ok((regs, Operands::Two(Word::Reg8(Reg8::A), Word::U8(mem_read(mem, address)))))
        }
    } else if lo == 0x8 && hi == 0x0 {
        match value {
            Some(Ret::U16(address)) => Ok(
                (regs, Operands::Two(Word::Mem16(address), Word::U16(regs.sp))),
            ),
            _ => Err(InstructionError::InvalidLiteral(value)),
        }
    } else if lo == 0x8 && hi == 0xF {
        match value {
            Some(Ret::U8(e)) => {
                let regs2 = CPURegisters { f: spec_sp_offset_flags(regs.sp, e), ..regs };
                let dest_value = spec_wrap_add16(regs.sp, spec_sign_extend8(e));
                Ok((regs2, Operands::Two(Word::Pair(RegPair::HL), Word::U16(dest_value))))
            },
            _ => Err(InstructionError::InvalidLiteral(value)),
        }
    } else if lo == 0x9 && hi == 0xF {
        Ok((regs, Operands::Two(Word::Reg16(Reg16::SP), Word::U16(hl))))
    } else if lo == 0xA && hi <= 0x3 {
        if hi == 0x0 {
            Ok(
                (
                    regs,
                    Operands::Two(
                        Word::Reg8(Reg8::A),
                        Word::U8(mem_read(mem, spec_read_pair(regs, RegPair::BC))),
                    ),
                ),
            )
        } else if hi == 0x1 {
            Ok(
                (
                    regs,
                    Operands::Two(
                        Word::Reg8(Reg8::A),
                        Word::U8(mem_read(mem, spec_read_pair(regs, RegPair::DE))),
                    ),
                ),
            )
        } else if hi == 0x2 {
            let regs2 = spec_write_pair(regs, RegPair::HL, spec_wrap_add16(hl, 1));
            Ok((regs2, Operands::Two(Word::Reg8(Reg8::A), Word::U8(mem_read(mem, hl)))))
        } else {
            let regs2 = spec_write_pair(regs, RegPair::HL, spec_wrap_add16(hl, 0xFFFF));
            Ok((regs2, Operands::Two(Word::Reg8(Reg8::A), Word::U8(mem_read(mem, hl)))))
        }
    } else if lo == 0xA && (hi == 0xE || hi == 0xF) {
        match value {
            Some(Ret::U16(address)) => {
                if hi == 0xE {
                    Ok((regs, Operands::Two(Word::Mem8(address), Word::U8(regs.a))))
                } else {
                    Ok((regs, Operands::Two(Word::Reg8(Reg8::A), Word::U8(mem_read(mem, address)))))
                }
            },
            _ => Err(InstructionError::InvalidLiteral(value)),
        }
    } else {
        Err(InstructionError::UnimplementedError(opcode))
    }
}

/// Decodes the operand bundle for an LD opcode; see
/// [`spec_ld_operands`]. On an error the register file is left
/// untouched.
pub fn get_ld_operands(
    registers: &mut CPURegisters,
    mem: &Memory,
    opcode: u8,
    value: Option<Ret>,
) -> (r: Result<(Operands, Option<Condition>), InstructionError>)
    requires
        mem.wf(),
    ensures
        match spec_ld_operands(opcode, value, *old(registers), mem@) {
            Ok(s) => r == Ok::<(Operands, Option<Condition>), InstructionError>((s.1, None))
                && *final(registers) == s.0,
            Err(e) => r == Err::<(Operands, Option<Condition>), InstructionError>(e)
                && *final(registers) == *old(registers),
        },
        old(registers).wf() ==> final(registers).wf(),
{
    let hi = opcode / 16;
    let lo = opcode % 16;
    let hl = registers.get_hl();
    if opcode == 0x76 {
        return Err(InstructionError::UnimplementedError(opcode));
    }
    if 0x40 <= opcode && opcode <= 0x7F {
        let lo8 = lo % 8;
        let source_value: u8 = if lo8 == 0 {
            registers.b
        } else if lo8 == 1 {
            registers.c
        } else if lo8 == 2 {
            registers.d
        } else if lo8 == 3 {
            registers.e
        } else if lo8 == 4 {
            registers.h
        } else if lo8 == 5 {
            registers.l
        } else if lo8 == 6 {
            mem.read_u8(hl)
        } else {
            registers.a
        };
        let source = Word::U8(source_value);
        let dest = if hi == 4 {
            if lo <= 7 {
                Word::Reg8(Reg8::B)
            } else {
                Word::Reg8(Reg8::C)
            }
        } else if hi == 5 {
            if lo <= 7 {
                Word::Reg8(Reg8::D)
            } else {
                Word::Reg8(Reg8::E)
            }
        } else if hi == 6 {
            if lo <= 7 {
                Word::Reg8(Reg8::H)
            } else {
                Word::Reg8(Reg8::L)
            }
        } else {
            if lo <= 7 {
                Word::Mem8(hl)
            } else {
                Word::Reg8(Reg8::A)
            }
        };
        return Ok((Operands::Two(dest, source), None));
    }
    if lo == 0x0 && (hi == 0xE || hi == 0xF) {
        let offset = match value {
            Some(Ret::U8(x)) => x,
            _ => {
                return Err(InstructionError::InvalidLiteral(value));
            },
        };
        let address: u16 = 0xFF00 + offset as u16;
        if hi == 0xE {
            Ok((Operands::Two(Word::Mem8(address), Word::U8(registers.a)), None))
        } else {
            Ok((Operands::Two(Word::Reg8(Reg8::A), Word::U8(mem.read_u8(address))), None))
        }
    } else if lo == 0x1 && hi <= 0x3 {
        let v = match value {
            Some(Ret::U16(x)) => x,
            _ => {
                return Err(InstructionError::InvalidLiteral(value));
            },
        };
        let dest = if hi == 0x0 {
            Word::Pair(RegPair::BC)
        } else if hi == 0x1 {
            Word::Pair(RegPair::DE)
        } else if hi == 0x2 {
            Word::Pair(RegPair::HL)
        } else {
            Word::Reg16(Reg16::SP)
        };
        Ok((Operands::Two(dest, Word::U16(v)), None))
    } else if lo == 0x2 && hi <= 0x3 {
        let source = Word::U8(registers.a);
        if hi == 0x0 {
            Ok((Operands::Two(Word::Mem8(registers.get_bc()), source), None))
        } else if hi == 0x1 {
            Ok((Operands::Two(Word::Mem8(registers.get_de()), source), None))
        } else if hi == 0x2 {
            registers.set_hl(((hl as u32 + 1) % 0x10000) as u16);
            Ok((Operands::Two(Word::Mem8(hl), source), None))
        } else {
            registers.set_hl(((hl as u32 + 0xFFFF) % 0x10000) as u16);
            Ok((Operands::Two(Word::Mem8(hl), source), None))
        }
    } else if lo == 0x2 && (hi == 0xE || hi == 0xF) {
        let address: u16 = 0xFF00 + registers.c as u16;
        if hi == 0xE {
            Ok((Operands::Two(Word::Mem8(address), Word::U8(registers.a)), None))
        } else {
            Ok((Operands::Two(Word::Reg8(Reg8::A), Word::U8(mem.read_u8(address))), None))
        }
    } else if lo == 0x8 && hi == 0x0 {
        let address = match value {
            Some(Ret::U16(x)) => x,
            _ => {
                return Err(InstructionError::InvalidLiteral(value));
            },
        };
        Ok((Operands::Two(Word::Mem16(address), Word::U16(registers.sp)), None))
    } else if lo == 0x8 && hi == 0xF {
        let e = match value {
            Some(Ret::U8(x)) => x,
            _ => {
                return Err(InstructionError::InvalidLiteral(value));
            },
        };
        let sp_low: u8 = (registers.sp % 256) as u8;
        registers.f = make_flags(false, false, sp_low % 16 + e % 16 > 15, sp_low as u16 + e as u16 > 255);
        let offset: u16 = if e < 128 {
            e as u16
        } else {
            e as u16 + 0xFF00
        };
        let dest_value: u16 = ((registers.sp as u32 + offset as u32) % 0x10000) as u16;
        Ok((Operands::Two(Word::Pair(RegPair::HL), Word::U16(dest_value)), None))
    } else if lo == 0x9 && hi == 0xF {
        Ok((Operands::Two(Word::Reg16(Reg16::SP), Word::U16(hl)), None))
    } else if lo == 0xA && hi <= 0x3 {
        if hi == 0x0 {
            Ok((Operands::Two(Word::Reg8(Reg8::A), Word::U8(mem.read_u8(registers.get_bc()))), None))
        } else if hi == 0x1 {
            Ok((Operands::Two(Word::Reg8(Reg8::A), Word::U8(mem.read_u8(registers.get_de()))), None))
        } else if hi == 0x2 {
            let byte = mem.read_u8(hl);
            registers.set_hl(((hl as u32 + 1) % 0x10000) as u16);
            Ok((Operands::Two(Word::Reg8(Reg8::A), Word::U8(byte)), None))
        } else {
            let byte = mem.read_u8(hl);
            registers.set_hl(((hl as u32 + 0xFFFF) % 0x10000) as u16);
            Ok((Operands::Two(Word::Reg8(Reg8::A), Word::U8(byte)), None))
        }
    } else if lo == 0xA && (hi == 0xE || hi == 0xF) {
        let address = match value {
            Some(Ret::U16(x)) => x,
            _ => {
                return Err(InstructionError::InvalidLiteral(value));
            },
        };
        if hi == 0xE {
            Ok((Operands::Two(Word::Mem8(address), Word::U8(registers.a)), None))
        } else {
            Ok((Operands::Two(Word::Reg8(Reg8::A), Word::U8(mem.read_u8(address))), None))
        }
    } else {
        Err(InstructionError::UnimplementedError(opcode))
    }
}

} // verus!
