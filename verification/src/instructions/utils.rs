//! Operand bundles, branch arguments, catalog metadata and error values
//! shared by the instruction executors.
//!
//! Operand slots are carried by value: a slot names a register, a register
//! pair or a memory address, and the executor that receives the bundle
//! resolves it against the register file and the memory map it holds.

use vstd::prelude::*;

use crate::cpu_registers::{combine16, high_byte, low_byte, mask_flag_byte, CPURegisters};

verus! {

/// The flag byte assembled from the four flag bits, Z in bit 7, N in
/// bit 6, H in bit 5, C in bit 4; the low nibble is zero.
pub open spec fn flags_byte(z: bool, n: bool, h: bool, c: bool) -> u8 {
    ((if z {
        128int
    } else {
        0int
    }) + (if n {
        64int
    } else {
        0int
    }) + (if h {
        32int
    } else {
        0int
    }) + (if c {
        16int
    } else {
        0int
    })) as u8
}

/// The zero flag bit of a flag byte.
pub open spec fn flag_z(f: u8) -> bool {
    f / 128 % 2 == 1
}

/// The subtraction flag bit of a flag byte.
pub open spec fn flag_n(f: u8) -> bool {
    f / 64 % 2 == 1
}

/// The half-carry flag bit of a flag byte.
pub open spec fn flag_h(f: u8) -> bool {
    f / 32 % 2 == 1
}

/// The carry flag bit of a flag byte.
pub open spec fn flag_c(f: u8) -> bool {
    f / 16 % 2 == 1
}

/// Builds the flag byte from its four bits.
pub fn make_flags(z: bool, n: bool, h: bool, c: bool) -> (r: u8)
    ensures
        r == flags_byte(z, n, h, c),
        r % 16 == 0,
{
    (if z {
        128u8
    } else {
        0u8
    }) + (if n {
        64u8
    } else {
        0u8
    }) + (if h {
        32u8
    } else {
        0u8
    }) + (if c {
        16u8
    } else {
        0u8
    })
}

/// Reads the carry bit of a flag byte.
pub fn read_flag_c(f: u8) -> (r: bool)
    ensures
        r == flag_c(f),
{
    f / 16 % 2 == 1
}

/// An 8-bit register name.
#[derive(Clone, Copy, Debug, PartialEq, Eq, Structural)]
pub enum Reg8 {
    A,
    B,
    C,
    D,
    E,
    H,
    L,
}

/// A register pair name.
#[derive(Clone, Copy, Debug, PartialEq, Eq, Structural)]
pub enum RegPair {
    AF,
    BC,
    DE,
    HL,
}

/// A bare 16-bit register name.
#[derive(Clone, Copy, Debug, PartialEq, Eq, Structural)]
pub enum Reg16 {
    SP,
    PC,
}

/// One operand slot: an immediate by value, or the name of the register,
/// register pair or memory cell the executor reads or writes.
///
/// `Mem16` names two adjacent memory bytes treated as one little-endian
/// 16-bit stack slot.
#[derive(Clone, Copy, Debug, PartialEq, Eq, Structural)]
pub enum Word {
    U8(u8),
    U16(u16),
    Reg8(Reg8),
    Reg16(Reg16),
    Pair(RegPair),
    Mem8(u16),
    Mem16(u16),
}

/// The operand bundle handed to an executor: none, one or two slots, or
/// the wider shapes that RET and CALL need.
#[derive(Clone, Copy, Debug, PartialEq, Eq, Structural)]
pub enum Operands {
    Empty,
    One(Word),
    Two(Word, Word),
    Ret(Word, Word, Word),
    Call(Word, Word, Word, Word),
}

/// An immediate read from the instruction stream.
#[derive(Clone, Copy, Debug, PartialEq, Eq, Structural)]
pub enum Ret {
    U8(u8),
    U16(u16),
}

/// A branch condition over the flag byte.
#[derive(Clone, Copy, Debug, PartialEq, Eq, Structural)]
pub enum Condition {
    NotZero,
    Zero,
    NotCarry,
    Carry,
}

/// Whether a branch condition holds of a flag byte.
pub open spec fn spec_cond_holds(condition: Condition, f: u8) -> bool {
    match condition {
        Condition::NotZero => !flag_z(f),
        Condition::Zero => flag_z(f),
        Condition::NotCarry => !flag_c(f),
        Condition::Carry => flag_c(f),
    }
}

/// Evaluates a branch condition against a flag byte.
pub fn check_condition(flags: u8, condition: Condition) -> (r: bool)
    ensures
        r == spec_cond_holds(condition, flags),
{
    match condition {
        Condition::NotZero => flags / 128 % 2 == 0,
        Condition::Zero => flags / 128 % 2 == 1,
        Condition::NotCarry => flags / 16 % 2 == 0,
        Condition::Carry => flags / 16 % 2 == 1,
    }
}

/// The cycle counts of the catalog entry and, for a conditional branch,
/// the condition that picks between them.
#[derive(Clone, Debug)]
pub struct BranchArgs {
    pub cycles: Vec<u8>,
    pub condition: Option<Condition>,
}

impl BranchArgs {
    /// A taken count is always present; a not-taken count is present
    /// whenever a condition may ask for it.
    pub open spec fn wf(&self) -> bool {
        &&& self.cycles@.len() >= 1
        &&& self.condition is Some ==> self.cycles@.len() >= 2
    }
}

/// The flag-effect column of a catalog entry; the core does not consume
/// it, but downstream tools do.
#[allow(non_snake_case)]
#[derive(Clone, Debug)]
pub struct InstructionDataFlags {
    pub Z: String,
    pub N: String,
    pub H: String,
    pub C: String,
}

impl Default for InstructionDataFlags {
    /// Every flag-effect column empty.
    fn default() -> (r: Self)
        ensures
            r.Z@.len() == 0 && r.N@.len() == 0 && r.H@.len() == 0 && r.C@.len() == 0,
    {
        InstructionDataFlags { Z: String::new(), N: String::new(), H: String::new(), C: String::new() }
    }
}

/// One catalog entry: the mnemonic that binds the executor, the
/// instruction length in bytes, and the machine-cycle counts.
#[derive(Clone, Debug)]
pub struct InstructionData {
    pub mnemonic: String,
    pub bytes: u8,
    pub cycles: Vec<u8>,
    pub immediate: bool,
    pub flags: InstructionDataFlags,
}

impl InstructionData {
    /// A catalog entry the step function can consume: one to three bytes
    /// long, with one or two cycle counts.
    pub open spec fn wf(&self) -> bool {
        &&& 1 <= self.bytes <= 3
        &&& 1 <= self.cycles@.len() <= 2
    }
}

impl Default for InstructionData {
    /// An empty entry: no mnemonic, zero length, no cycle counts.
    fn default() -> (r: Self)
        ensures
            r.mnemonic@.len() == 0,
            r.bytes == 0,
            r.cycles@.len() == 0,
            r.immediate == false,
    {
        InstructionData {
            mnemonic: String::new(),
            bytes: 0,
            cycles: Vec::new(),
            immediate: false,
            flags: InstructionDataFlags::default(),
        }
    }
}

/// The operand column of a catalog entry; the core does not consume it.
#[derive(Clone, Debug, Default)]
pub struct InstructionDataOperands {
    pub name: String,
    pub immediate: bool,
    pub bytes: Option<u8>,
}

/// What went wrong while decoding or executing one instruction.
#[derive(Clone, Copy, Debug, PartialEq, Eq, Structural)]
pub enum InstructionError {
    /// The opcode has no executor bound, or its decoding branch is
    /// incomplete; carries the opcode byte.
    UnimplementedError(u8),
    /// An executor received a bundle of a shape it never accepts.
    InvalidOperandsError(Operands),
    /// An executor received the right shape holding the wrong slot kinds.
    IncorrectOperandsError(Operands),
    /// The decoder needed an immediate of one width and the instruction
    /// stream supplied another, or none.
    InvalidLiteral(Option<Ret>),
}

/// The slot an 8-bit register name resolves to.
pub open spec fn spec_read_reg8(regs: CPURegisters, r: Reg8) -> u8 {
    match r {
        Reg8::A => regs.a,
        Reg8::B => regs.b,
        Reg8::C => regs.c,
        Reg8::D => regs.d,
        Reg8::E => regs.e,
        Reg8::H => regs.h,
        Reg8::L => regs.l,
    }
}

/// The register file after writing an 8-bit register by name.
pub open spec fn spec_write_reg8(regs: CPURegisters, r: Reg8, v: u8) -> CPURegisters {
    match r {
        Reg8::A => CPURegisters { a: v, ..regs },
        Reg8::B => CPURegisters { b: v, ..regs },
        Reg8::C => CPURegisters { c: v, ..regs },
        Reg8::D => CPURegisters { d: v, ..regs },
        Reg8::E => CPURegisters { e: v, ..regs },
        Reg8::H => CPURegisters { h: v, ..regs },
        Reg8::L => CPURegisters { l: v, ..regs },
    }
}

/// The 16-bit value a register pair holds, high register first.
pub open spec fn spec_read_pair(regs: CPURegisters, p: RegPair) -> u16 {
    match p {
        RegPair::AF => combine16(regs.a, regs.f),
        RegPair::BC => combine16(regs.b, regs.c),
        RegPair::DE => combine16(regs.d, regs.e),
        RegPair::HL => combine16(regs.h, regs.l),
    }
}

/// The register file after writing a register pair; a write through AF
/// forces the low nibble of F to zero.
pub open spec fn spec_write_pair(regs: CPURegisters, p: RegPair, v: u16) -> CPURegisters {
    match p {
        RegPair::AF => CPURegisters {
            a: high_byte(v),
            f: mask_flag_byte(low_byte(v)),
            ..regs
        },
        RegPair::BC => CPURegisters { b: high_byte(v), c: low_byte(v), ..regs },
        RegPair::DE => CPURegisters { d: high_byte(v), e: low_byte(v), ..regs },
        RegPair::HL => CPURegisters { h: high_byte(v), l: low_byte(v), ..regs },
    }
}

/// The value of a bare 16-bit register.
pub open spec fn spec_read_reg16(regs: CPURegisters, r: Reg16) -> u16 {
    match r {
        Reg16::SP => regs.sp,
        Reg16::PC => regs.pc,
    }
}

/// The register file after writing a bare 16-bit register.
pub open spec fn spec_write_reg16(regs: CPURegisters, r: Reg16, v: u16) -> CPURegisters {
    match r {
        Reg16::SP => CPURegisters { sp: v, ..regs },
        Reg16::PC => CPURegisters { pc: v, ..regs },
    }
}

/// Reads an 8-bit register by name.
pub fn read_reg8(regs: &CPURegisters, r: Reg8) -> (v: u8)
    ensures
        v == spec_read_reg8(*regs, r),
{
    match r {
        Reg8::A => regs.a,
        Reg8::B => regs.b,
        Reg8::C => regs.c,
        Reg8::D => regs.d,
        Reg8::E => regs.e,
        Reg8::H => regs.h,
        Reg8::L => regs.l,
    }
}

/// Writes an 8-bit register by name.
pub fn write_reg8(regs: &mut CPURegisters, r: Reg8, v: u8)
    ensures
        *final(regs) == spec_write_reg8(*old(regs), r, v),
{
    match r {
        Reg8::A => regs.a = v,
        Reg8::B => regs.b = v,
        Reg8::C => regs.c = v,
        Reg8::D => regs.d = v,
        Reg8::E => regs.e = v,
        Reg8::H => regs.h = v,
        Reg8::L => regs.l = v,
    }
}

/// Reads a register pair by name.
pub fn read_pair(regs: &CPURegisters, p: RegPair) -> (v: u16)
    ensures
        v == spec_read_pair(*regs, p),
{
    match p {
        RegPair::AF => regs.get_af(),
        RegPair::BC => regs.get_bc(),
        RegPair::DE => regs.get_de(),
        RegPair::HL => regs.get_hl(),
    }
}

/// Writes a register pair by name; AF masks the low nibble of F.
pub fn write_pair(regs: &mut CPURegisters, p: RegPair, v: u16)
    ensures
        *final(regs) == spec_write_pair(*old(regs), p, v),
{
    match p {
        RegPair::AF => regs.set_af(v),
        RegPair::BC => regs.set_bc(v),
        RegPair::DE => regs.set_de(v),
        RegPair::HL => regs.set_hl(v),
    }
}

/// Reads a bare 16-bit register by name.
pub fn read_reg16(regs: &CPURegisters, r: Reg16) -> (v: u16)
    ensures
        v == spec_read_reg16(*regs, r),
{
    match r {
        Reg16::SP => regs.sp,
        Reg16::PC => regs.pc,
    }
}

/// Writes a bare 16-bit register by name.
pub fn write_reg16(regs: &mut CPURegisters, r: Reg16, v: u16)
    ensures
        *final(regs) == spec_write_reg16(*old(regs), r, v),
{
    match r {
        Reg16::SP => regs.sp = v,
        Reg16::PC => regs.pc = v,
    }
}

} // verus!
