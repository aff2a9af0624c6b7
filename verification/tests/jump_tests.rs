use sm83::cpu_registers::CPURegisters;
use sm83::instructions::jump;
use sm83::instructions::utils::{BranchArgs, Condition, Operands, Reg16, Word};
use sm83::memory::Memory;

#[test]
fn test_jp_a16() {
    let target_instruction = 0xAAAA;

    let mut regs = CPURegisters::new();
    regs.pc = 0x0000;
    let mut mem = Memory::new();

    jump::jp(
        &mut regs,
        &mut mem,
        Operands::Two(Word::Reg16(Reg16::PC), Word::U16(target_instruction)),
        BranchArgs { cycles: vec![16], condition: None },
    )
    .unwrap();

    assert_eq!(regs.pc, target_instruction);
}

#[test]
fn test_jp_nz_a16_true() {
    let target_instruction = 0xAAAA;

    let mut regs = CPURegisters::new();
    regs.pc = 0x0000;
    regs.f = 0b0000_0000; // Z clear, so NZ holds
    let mut mem = Memory::new();

    let cycles = jump::jp(
        &mut regs,
        &mut mem,
        Operands::Two(Word::Reg16(Reg16::PC), Word::U16(target_instruction)),
        BranchArgs { cycles: vec![16, 12], condition: Some(Condition::NotZero) },
    )
    .unwrap();

    assert_eq!(regs.pc, target_instruction);
    assert_eq!(cycles, 16);
}

#[test]
fn test_jp_nz_a16_false() {
    let target_instruction = 0xAAAA;

    let mut regs = CPURegisters::new();
    regs.pc = 0x0000;
    regs.f = 0b1000_0000; // Z set, so NZ fails
    let mut mem = Memory::new();

    let cycles = jump::jp(
        &mut regs,
        &mut mem,
        Operands::Two(Word::Reg16(Reg16::PC), Word::U16(target_instruction)),
        BranchArgs { cycles: vec![16, 12], condition: Some(Condition::NotZero) },
    )
    .unwrap();

    assert_eq!(regs.pc, 0x0000);
    assert_eq!(cycles, 12);
}

#[test]
fn test_jr_e8() {
    let pc_value: u16 = 121;
    let target_instruction: i8 = -120;

    let mut regs = CPURegisters::new();
    regs.pc = pc_value;
    let mut mem = Memory::new();

    let cycles = jump::jr(
        &mut regs,
        &mut mem,
        Operands::Two(Word::Reg16(Reg16::PC), Word::U8(target_instruction as u8)),
        BranchArgs { cycles: vec![16, 12], condition: None },
    )
    .unwrap();

    assert_eq!(regs.pc, u16::wrapping_add_signed(pc_value, target_instruction as i16));
    assert_eq!(cycles, 16);
}

#[test]
fn test_jr_forward_and_backward_wrap() {
    let mut regs = CPURegisters::new();
    let mut mem = Memory::new();

    regs.pc = 0xFFF0;
    jump::jr(
        &mut regs,
        &mut mem,
        Operands::Two(Word::Reg16(Reg16::PC), Word::U8(0x20)),
        BranchArgs { cycles: vec![12], condition: None },
    )
    .unwrap();
    assert_eq!(regs.pc, 0x0010);

    regs.pc = 0x0002;
    jump::jr(
        &mut regs,
        &mut mem,
        Operands::Two(Word::Reg16(Reg16::PC), Word::U8(0xFB)), // -5
        BranchArgs { cycles: vec![12], condition: None },
    )
    .unwrap();
    assert_eq!(regs.pc, 0xFFFD);
}

#[test]
fn test_jp_carry_conditions() {
    let mut regs = CPURegisters::new();
    let mut mem = Memory::new();

    regs.pc = 0;
    regs.f = 0b0001_0000; // C set
    let cycles = jump::jp(
        &mut regs,
        &mut mem,
        Operands::Two(Word::Reg16(Reg16::PC), Word::U16(0x1234)),
        BranchArgs { cycles: vec![16, 12], condition: Some(Condition::Carry) },
    )
    .unwrap();
    assert_eq!(regs.pc, 0x1234);
    assert_eq!(cycles, 16);

    regs.pc = 0;
    let cycles2 = jump::jp(
        &mut regs,
        &mut mem,
        Operands::Two(Word::Reg16(Reg16::PC), Word::U16(0x1234)),
        BranchArgs { cycles: vec![16, 12], condition: Some(Condition::NotCarry) },
    )
    .unwrap();
    assert_eq!(regs.pc, 0);
    assert_eq!(cycles2, 12);
}
