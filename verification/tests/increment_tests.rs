use sm83::cpu_registers::CPURegisters;
use sm83::instructions::increment;
use sm83::instructions::utils::{BranchArgs, Operands, Reg8, Reg16, RegPair, Word};
use sm83::memory::Memory;

fn plain_args(cycles: Vec<u8>) -> BranchArgs {
    BranchArgs { cycles, condition: None }
}

#[test]
fn test_inc_r8() {
    let target = 0;
    let desired_value = target + 1;

    let mut regs = CPURegisters::new();
    regs.b = target;
    let mut mem = Memory::new();

    increment::inc(
        &mut regs,
        &mut mem,
        Operands::One(Word::Reg8(Reg8::B)),
        plain_args(vec![4]),
    )
    .unwrap();

    assert_eq!(regs.b, desired_value)
}

#[test]
fn test_dec_r8() {
    let target = 1;
    let desired_value = target - 1;

    let mut regs = CPURegisters::new();
    regs.b = target;
    let mut mem = Memory::new();

    increment::dec(
        &mut regs,
        &mut mem,
        Operands::One(Word::Reg8(Reg8::B)),
        plain_args(vec![4]),
    )
    .unwrap();

    assert_eq!(regs.b, desired_value)
}

#[test]
fn test_inc_r16() {
    let target = 1000;
    let desired_value = target + 1;

    let mut regs = CPURegisters::new();
    regs.sp = target;
    let mut mem = Memory::new();

    increment::inc(
        &mut regs,
        &mut mem,
        Operands::One(Word::Reg16(Reg16::SP)),
        plain_args(vec![8]),
    )
    .unwrap();

    assert_eq!(regs.sp, desired_value)
}

#[test]
fn test_dec_r16() {
    let target = 1000;
    let desired_value = target - 1;

    let mut regs = CPURegisters::new();
    regs.sp = target;
    let mut mem = Memory::new();

    increment::dec(
        &mut regs,
        &mut mem,
        Operands::One(Word::Reg16(Reg16::SP)),
        plain_args(vec![8]),
    )
    .unwrap();

    assert_eq!(regs.sp, desired_value)
}

#[test]
fn test_inc_half_carry_and_carry_kept() {
    let mut regs = CPURegisters::new();
    regs.c = 0x0F;
    regs.f = 0b0001_0000; // carry set beforehand; INC must keep it
    let mut mem = Memory::new();

    increment::inc(
        &mut regs,
        &mut mem,
        Operands::One(Word::Reg8(Reg8::C)),
        plain_args(vec![4]),
    )
    .unwrap();

    assert_eq!(regs.c, 0x10);
    assert_eq!(regs.f, 0b0011_0000);
}

#[test]
fn test_dec_half_borrow_and_zero() {
    let mut regs = CPURegisters::new();
    regs.c = 0x10;
    let mut mem = Memory::new();

    increment::dec(
        &mut regs,
        &mut mem,
        Operands::One(Word::Reg8(Reg8::C)),
        plain_args(vec![4]),
    )
    .unwrap();

    assert_eq!(regs.c, 0x0F);
    assert_eq!(regs.f, 0b0110_0000);

    regs.c = 1;
    increment::dec(
        &mut regs,
        &mut mem,
        Operands::One(Word::Reg8(Reg8::C)),
        plain_args(vec![4]),
    )
    .unwrap();
    assert_eq!(regs.c, 0);
    assert_eq!(regs.f, 0b1100_0000);
}

#[test]
fn test_inc_pair_touches_no_flags() {
    let mut regs = CPURegisters::new();
    regs.set_bc(0x00FF);
    regs.f = 0b1111_0000;
    let mut mem = Memory::new();

    increment::inc(
        &mut regs,
        &mut mem,
        Operands::One(Word::Pair(RegPair::BC)),
        plain_args(vec![8]),
    )
    .unwrap();

    assert_eq!(regs.get_bc(), 0x0100);
    assert_eq!(regs.f, 0b1111_0000);
}

#[test]
fn test_inc_memory_cell() {
    let mut regs = CPURegisters::new();
    let mut mem = Memory::new();
    mem.write_u8(0x1234, 41);

    increment::inc(&mut regs, &mut mem, Operands::One(Word::Mem8(0x1234)), plain_args(vec![12]))
        .unwrap();

    assert_eq!(mem.read_u8(0x1234), 42);
}
