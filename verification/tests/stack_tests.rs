use sm83::cpu_registers::{convert_two_u8s_to_u16, convert_u16_to_two_u8s, CPURegisters};
use sm83::instructions::stack;
use sm83::instructions::utils::{BranchArgs, Condition, Operands, Reg16, RegPair, Word};
use sm83::memory::Memory;

#[test]
fn test_push_pop() {
    let source = 30000;
    let expected_values = convert_u16_to_two_u8s(source);

    let mut regs = CPURegisters::new();
    regs.set_bc(source);
    let mut mem = Memory::new();
    mem.write_u8(10, 100);
    mem.write_u8(11, 200);

    stack::push_pop(
        &mut regs,
        &mut mem,
        Operands::Two(Word::Mem16(10), Word::Pair(RegPair::BC)),
        BranchArgs { cycles: vec![16], condition: None },
    )
    .unwrap();

    // the pair lands little-endian: low byte first
    assert_eq!((mem.read_u8(10), mem.read_u8(11)), (expected_values.1, expected_values.0))
}

#[test]
fn test_ret() {
    let source = 30000;
    let expected_values = convert_u16_to_two_u8s(source);

    let mut regs = CPURegisters::new();
    regs.pc = 100;
    regs.sp = 0;
    let mut mem = Memory::new();
    mem.write_u8(0, expected_values.0);
    mem.write_u8(1, expected_values.1);

    stack::ret(
        &mut regs,
        &mut mem,
        Operands::Ret(Word::Reg16(Reg16::PC), Word::Mem16(0), Word::Reg16(Reg16::SP)),
        BranchArgs { cycles: vec![16], condition: None },
    )
    .unwrap();

    assert_eq!(regs.pc, convert_two_u8s_to_u16(expected_values.1, expected_values.0));
    assert_eq!(regs.sp, 2);
}

#[test]
fn test_ret_condition_true() {
    let source = 30000;
    let expected_values = convert_u16_to_two_u8s(source);

    let mut regs = CPURegisters::new();
    regs.pc = 100;
    regs.sp = 0;
    regs.f = 0b1100_0000; // Z set, so the Z condition holds
    let mut mem = Memory::new();
    mem.write_u8(0, expected_values.0);
    mem.write_u8(1, expected_values.1);

    let cycles = vec![16, 4];
    let result_cycles = stack::ret(
        &mut regs,
        &mut mem,
        Operands::Ret(Word::Reg16(Reg16::PC), Word::Mem16(0), Word::Reg16(Reg16::SP)),
        BranchArgs { cycles: cycles.clone(), condition: Some(Condition::Zero) },
    )
    .unwrap();

    assert_eq!(regs.pc, convert_two_u8s_to_u16(expected_values.1, expected_values.0));
    assert_eq!(regs.sp, 2);
    assert_eq!(result_cycles, cycles[0]);
}

#[test]
fn test_ret_condition_false() {
    let source = 30000;
    let expected_values = convert_u16_to_two_u8s(source);
    let answer = 100;

    let mut regs = CPURegisters::new();
    regs.pc = answer;
    regs.sp = 0;
    regs.f = 0b1100_0000; // Z set, so the NZ condition fails
    let mut mem = Memory::new();
    mem.write_u8(0, expected_values.0);
    mem.write_u8(1, expected_values.1);

    let cycles = vec![16, 4];
    let result_cycles = stack::ret(
        &mut regs,
        &mut mem,
        Operands::Ret(Word::Reg16(Reg16::PC), Word::Mem16(0), Word::Reg16(Reg16::SP)),
        BranchArgs { cycles: cycles.clone(), condition: Some(Condition::NotZero) },
    )
    .unwrap();

    assert_eq!(regs.pc, answer);
    assert_eq!(regs.sp, 0);
    assert_eq!(result_cycles, cycles[1]);
}

#[test]
fn test_call() {
    let mut regs = CPURegisters::new();
    regs.pc = 0x6996;
    regs.sp = 10;
    let address = 0xFFFF;
    let mut mem = Memory::new();

    stack::call(
        &mut regs,
        &mut mem,
        Operands::Call(
            Word::Mem16(8),
            Word::Reg16(Reg16::PC),
            Word::Reg16(Reg16::SP),
            Word::U16(address),
        ),
        BranchArgs { cycles: vec![16, 4], condition: None },
    )
    .unwrap();

    assert_eq!(regs.pc, address);
    assert_eq!((mem.read_u8(8), mem.read_u8(9)), (0x96, 0x69));
    assert_eq!(regs.sp, 8);
}

#[test]
fn test_call_condition_true() {
    let mut regs = CPURegisters::new();
    regs.pc = 0x6996;
    regs.sp = 10;
    regs.f = 0b1100_0000; // Z set, so the Z condition holds
    let address = 0xFFFF;
    let mut mem = Memory::new();

    let cycles = vec![16, 4];
    let result_cycles = stack::call(
        &mut regs,
        &mut mem,
        Operands::Call(
            Word::Mem16(8),
            Word::Reg16(Reg16::PC),
            Word::Reg16(Reg16::SP),
            Word::U16(address),
        ),
        BranchArgs { cycles: cycles.clone(), condition: Some(Condition::Zero) },
    )
    .unwrap();

    assert_eq!(regs.pc, address);
    assert_eq!((mem.read_u8(8), mem.read_u8(9)), (0x96, 0x69));
    assert_eq!(regs.sp, 8);
    assert_eq!(result_cycles, cycles[0]);
}

#[test]
fn test_call_condition_false() {
    let start_pc = 0x6996;
    let mut regs = CPURegisters::new();
    regs.pc = start_pc;
    regs.sp = 10;
    regs.f = 0b1100_0000; // Z set, so the NZ condition fails
    let address = 0xFFFF;
    let mut mem = Memory::new();

    let cycles = vec![16, 4];
    let result_cycles = stack::call(
        &mut regs,
        &mut mem,
        Operands::Call(
            Word::Mem16(8),
            Word::Reg16(Reg16::PC),
            Word::Reg16(Reg16::SP),
            Word::U16(address),
        ),
        BranchArgs { cycles: cycles.clone(), condition: Some(Condition::NotZero) },
    )
    .unwrap();

    assert_eq!(regs.pc, start_pc);
    assert_eq!((mem.read_u8(8), mem.read_u8(9)), (0, 0));
    assert_eq!(regs.sp, 10);
    assert_eq!(result_cycles, cycles[1]);
}

#[test]
fn test_push_pop_into_af_masks_flags() {
    let mut regs = CPURegisters::new();
    let mut mem = Memory::new();
    mem.write_u8(100, 0xFF);
    mem.write_u8(101, 0x12);

    stack::push_pop(
        &mut regs,
        &mut mem,
        Operands::Two(Word::Pair(RegPair::AF), Word::Mem16(100)),
        BranchArgs { cycles: vec![12], condition: None },
    )
    .unwrap();

    assert_eq!(regs.a, 0x12);
    assert_eq!(regs.f, 0xF0);
}
