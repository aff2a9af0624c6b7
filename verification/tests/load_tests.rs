use sm83::cpu_registers::{convert_u16_to_two_u8s, CPURegisters};
use sm83::instructions::load;
use sm83::instructions::utils::{BranchArgs, Operands, Reg8, RegPair, Word};
use sm83::memory::Memory;

fn plain_args(cycles: Vec<u8>) -> BranchArgs {
    BranchArgs { cycles, condition: None }
}

#[test]
fn test_ld_r8_r8() {
    let source = 10;
    let target = 0;

    let mut regs = CPURegisters::new();
    regs.b = target;
    let mut mem = Memory::new();

    load::ld(
        &mut regs,
        &mut mem,
        Operands::Two(Word::Reg8(Reg8::B), Word::U8(source)),
        plain_args(vec![4]),
    )
    .unwrap();

    assert_eq!(regs.b, source)
}

#[test]
fn test_ld_r16_r16() {
    let source = 30000;

    let mut regs = CPURegisters::new();
    regs.b = 100;
    regs.c = 200;
    let mut mem = Memory::new();

    load::ld(
        &mut regs,
        &mut mem,
        Operands::Two(Word::Pair(RegPair::BC), Word::U16(source)),
        plain_args(vec![12]),
    )
    .unwrap();

    let expected_values = convert_u16_to_two_u8s(source);
    assert_eq!((regs.b, regs.c), expected_values)
}

#[test]
fn test_ld_into_memory_pair() {
    let mut regs = CPURegisters::new();
    regs.sp = 0xBEEF;
    let mut mem = Memory::new();

    // the LD (a16),SP shape: a 16-bit store, little-endian
    let sp = regs.sp;
    load::ld(
        &mut regs,
        &mut mem,
        Operands::Two(Word::Mem16(0x0100), Word::U16(sp)),
        plain_args(vec![20]),
    )
    .unwrap();

    assert_eq!(mem.read_u8(0x0100), 0xEF);
    assert_eq!(mem.read_u8(0x0101), 0xBE);
}

#[test]
fn test_ld_pop_af_masks_low_nibble() {
    let mut regs = CPURegisters::new();
    let mut mem = Memory::new();

    load::ld(
        &mut regs,
        &mut mem,
        Operands::Two(Word::Pair(RegPair::AF), Word::U16(0x12FF)),
        plain_args(vec![12]),
    )
    .unwrap();

    assert_eq!(regs.a, 0x12);
    assert_eq!(regs.f, 0xF0);
}
