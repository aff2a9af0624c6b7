use sm83::cpu_registers::{convert_u16_to_two_u8s, CPURegisters};
use sm83::instructions::utils::{InstructionData, InstructionDataFlags, InstructionError};
use sm83::instructions::{bind_instruction, execute_instruction, Instruction};
use sm83::memory::Memory;

fn make_instruction(mnemonic: &str, bytes: u8, cycles: Vec<u8>) -> Instruction {
    bind_instruction(InstructionData {
        mnemonic: mnemonic.to_owned(),
        bytes,
        cycles,
        immediate: false,
        flags: InstructionDataFlags::default(),
    })
}

#[test]
fn test_execute_ld_rx_rx_instruction() {
    let mut registers = CPURegisters::default();
    let mut memory = Memory::default();

    assert_eq!(registers.pc, 0);

    // LD B, C
    let instruction = 0x41;
    memory.write_u8(0x0, instruction);
    registers.b = 18;
    registers.c = 60;

    execute_instruction(&make_instruction("LD", 1, vec![4]), &mut registers, &mut memory).unwrap();

    assert_eq!(registers.pc, 1);
    assert_eq!(registers.b, 60);
    assert_eq!(registers.c, 60);
}

#[test]
fn test_execute_ld_r16_n16_instruction() {
    let mut registers = CPURegisters::default();
    let mut memory = Memory::default();

    let desired_value = 6666;
    let expected_values = convert_u16_to_two_u8s(desired_value);

    assert_eq!(registers.pc, 0);

    // LD BC, d16
    let instruction = 0x01;
    memory.write_u8(0x0, instruction);
    memory.write_u16(0x1, desired_value);

    execute_instruction(&make_instruction("LD", 3, vec![12]), &mut registers, &mut memory)
        .unwrap();

    assert_eq!(registers.pc, 3);
    assert_eq!(registers.b, expected_values.0);
    assert_eq!(registers.c, expected_values.1);
}

#[test]
fn test_execute_ld_rx_hlmem_instruction() {
    let desired_result = 69;
    let target_address = 0x0101;

    let mut registers = CPURegisters::default();
    let mut memory = Memory::default();

    assert_eq!(registers.pc, 0);

    // LD [HL], B
    let instruction = 0x70;
    registers.b = desired_result;
    registers.set_hl(target_address);
    memory.write_u8(0x0, instruction);
    memory.write_u8(target_address, 0);

    execute_instruction(&make_instruction("LD", 1, vec![8]), &mut registers, &mut memory).unwrap();

    assert_eq!(registers.pc, 1);
    assert_eq!(registers.b, desired_result);
    assert_eq!(registers.get_hl(), target_address);
    assert_eq!(memory.read_u8(target_address), desired_result);
}

#[test]
fn test_execute_ld_a16mem_rx_instruction() {
    let desired_result: u8 = 69;

    let mut registers = CPURegisters::default();
    let mut memory = Memory::default();

    assert_eq!(registers.pc, 0);

    // LD [a16], A
    let instruction = 0xEA;
    let address: u16 = 0x0101;
    memory.write_u8(0x0, instruction);
    memory.write_u16(0x01, address);

    registers.a = desired_result;

    execute_instruction(&make_instruction("LD", 3, vec![16]), &mut registers, &mut memory)
        .unwrap();

    assert_eq!(registers.pc, 3);
    assert_eq!(memory.read_u8(address), desired_result);
}

#[test]
fn test_execute_ld_rx_a16mem_instruction() {
    let desired_result: u8 = 69;

    let mut registers = CPURegisters::default();
    let mut memory = Memory::default();

    assert_eq!(registers.pc, 0);

    // LD A, [a16]
    let instruction = 0xFA;
    let address: u16 = 0x0101;
    memory.write_u8(0x0, instruction);
    memory.write_u16(0x01, address);
    memory.write_u8(address, desired_result);

    registers.a = 0;

    execute_instruction(&make_instruction("LD", 3, vec![16]), &mut registers, &mut memory)
        .unwrap();

    assert_eq!(registers.pc, 3);
    assert_eq!(registers.a, desired_result);
}

#[test]
fn test_execute_add_rx_rx_instruction() {
    let mut registers = CPURegisters::default();
    let mut memory = Memory::default();

    assert_eq!(registers.pc, 0);

    // ADD A, B
    let instruction = 0x80;

    memory.write_u8(0x0, instruction);
    registers.a = 10;
    registers.b = 20;

    let desired_result: u8 = registers.a + registers.b;

    execute_instruction(&make_instruction("ADD", 1, vec![4]), &mut registers, &mut memory)
        .unwrap();

    assert_eq!(registers.pc, 1);
    assert_eq!(registers.a, desired_result);
}

#[test]
fn test_execute_adc_rx_rx_instruction() {
    let mut registers = CPURegisters::default();
    let mut memory = Memory::default();

    assert_eq!(registers.pc, 0);

    // ADC A, B
    let instruction = 0x88;

    memory.write_u8(0x0, instruction);
    registers.a = 10;
    registers.b = 20;

    let desired_result: u8 = registers.a + registers.b;

    execute_instruction(&make_instruction("ADC", 1, vec![4]), &mut registers, &mut memory)
        .unwrap();

    assert_eq!(registers.pc, 1);
    assert_eq!(registers.a, desired_result);
}

#[test]
fn test_execute_sub_rx_rx_instruction() {
    let mut registers = CPURegisters::default();
    let mut memory = Memory::default();

    assert_eq!(registers.pc, 0);

    // SUB A, B
    let instruction = 0x90;

    memory.write_u8(0x0, instruction);
    registers.a = 30;
    registers.b = 20;

    let desired_result: u8 = registers.a - registers.b;

    execute_instruction(&make_instruction("SUB", 1, vec![4]), &mut registers, &mut memory)
        .unwrap();

    assert_eq!(registers.pc, 1);
    assert_eq!(registers.a, desired_result);
}

#[test]
fn test_execute_sbc_rx_rx_instruction() {
    let mut registers = CPURegisters::default();
    let mut memory = Memory::default();

    assert_eq!(registers.pc, 0);

    // SBC A, B
    let instruction = 0x98;

    memory.write_u8(0x0, instruction);
    registers.a = 30;
    registers.b = 20;

    let desired_result: u8 = registers.a - registers.b;

    execute_instruction(&make_instruction("SBC", 1, vec![4]), &mut registers, &mut memory)
        .unwrap();

    assert_eq!(registers.pc, 1);
    assert_eq!(registers.a, desired_result);
}

#[test]
fn test_execute_jp_z_true_instruction() {
    let mut registers = CPURegisters::default();
    let mut memory = Memory::default();

    assert_eq!(registers.pc, 0);

    // JP Z, a16
    let instruction = 0xCA;

    memory.write_u8(0x0, instruction);
    memory.write_u16(0x1, 0xAFAF);
    registers.f = 0b1000_0000;

    let instr = make_instruction("JP", 3, vec![16, 12]);
    let cycles = execute_instruction(&instr, &mut registers, &mut memory).unwrap();

    assert_eq!(registers.pc, 0xAFAF);
    assert_eq!(cycles, instr.data.cycles[0])
}

#[test]
fn test_execute_jp_z_false_instruction() {
    let mut registers = CPURegisters::default();
    let mut memory = Memory::default();

    assert_eq!(registers.pc, 0);

    // JP Z, a16
    let instruction = 0xCA;

    memory.write_u8(0x0, instruction);
    memory.write_u16(0x1, 0xAFAF); // write jp destination for instruction to read
    registers.f = 0b0000_0000; // condition should result in false

    let instr = make_instruction("JP", 3, vec![16, 12]);
    let cycles = execute_instruction(&instr, &mut registers, &mut memory).unwrap();

    assert_eq!(registers.pc, 3);
    assert_eq!(cycles, instr.data.cycles[1])
}

#[test]
fn test_execute_push_af_instruction() {
    let mut registers = CPURegisters::default();
    let mut memory = Memory::default();

    assert_eq!(registers.pc, 0);

    // point sp at unused memory
    registers.sp = 100;

    // PUSH AF
    let instruction = 0xF5;

    memory.write_u8(0x0, instruction);
    registers.a = 0x0F;
    registers.f = 0xF0;

    execute_instruction(&make_instruction("PUSH", 1, vec![16]), &mut registers, &mut memory)
        .unwrap();

    assert_eq!(registers.pc, 1);
    assert_eq!(memory.read_u8(99), 0x0F);
    assert_eq!(memory.read_u8(98), 0xF0);
    assert_eq!(registers.sp, 98);
}

#[test]
fn test_execute_pop_bc_instruction() {
    let mut registers = CPURegisters::default();
    let mut memory = Memory::default();

    assert_eq!(registers.pc, 0);
    // ensure pre-conditions
    registers.b = 0x00;
    registers.c = 0x00;

    // point sp at unused memory
    registers.sp = 100;

    // POP BC
    let instruction = 0xC1;

    memory.write_u8(0x0, instruction);

    // write memory to be stored back into registers
    memory.write_u8(registers.sp, 0x0F);
    memory.write_u8(registers.sp + 1, 0xF0);

    execute_instruction(&make_instruction("POP", 1, vec![12]), &mut registers, &mut memory)
        .unwrap();

    assert_eq!(registers.pc, 1);
    assert_eq!(registers.c, 0x0F);
    assert_eq!(registers.b, 0xF0);
    assert_eq!(registers.sp, 102);
}

#[test]
fn test_execute_ret_nz_true_instruction() {
    let mut registers = CPURegisters::default();
    let mut memory = Memory::default();

    // ensure pre-conditions: Z clear, so NZ holds
    registers.pc = 0x0000;
    registers.f = 0b0000_0000;

    // point sp at unused memory
    registers.sp = 100;

    // RET NZ
    let instruction = 0xC0;

    memory.write_u8(0x0, instruction);

    // write memory to be stored back into registers
    memory.write_u8(registers.sp, 0x0F);
    memory.write_u8(registers.sp + 1, 0xF0);

    let instr = make_instruction("RET", 1, vec![20, 8]);
    let cycles = execute_instruction(&instr, &mut registers, &mut memory).unwrap();

    assert_eq!(registers.pc, 0xF00F);
    assert_eq!(registers.sp, 102);
    assert_eq!(cycles, instr.data.cycles[0])
}

#[test]
fn test_execute_ret_nz_false_instruction() {
    let mut registers = CPURegisters::default();
    let mut memory = Memory::default();

    // ensure pre-conditions: Z set, so NZ fails
    registers.pc = 0x0000;
    registers.f = 0b1000_0000;

    // point sp at unused memory
    registers.sp = 100;

    // RET NZ
    let instruction = 0xC0;

    memory.write_u8(0x0, instruction);

    // write memory that must stay untouched
    memory.write_u8(registers.sp, 0x0F);
    memory.write_u8(registers.sp + 1, 0xF0);

    let instr = make_instruction("RET", 1, vec![20, 8]);
    let cycles = execute_instruction(&instr, &mut registers, &mut memory).unwrap();

    assert_eq!(registers.pc, 1);
    assert_eq!(registers.sp, 100);
    assert_eq!(cycles, instr.data.cycles[1])
}

#[test]
fn test_execute_call_instruction() {
    let mut registers = CPURegisters::default();
    let mut memory = Memory::default();

    let start_address = 0x44AA;

    // ensure pre-conditions
    registers.pc = start_address;
    registers.f = 0b0000_0000;

    // point sp at unused memory
    registers.sp = 100;

    // CALL a16
    let instruction = 0xCD;

    let jump_address = 0x6996;
    memory.write_u8(start_address, instruction);
    memory.write_u16(start_address + 1, jump_address);

    let instr = make_instruction("CALL", 3, vec![24]);
    let cycles = execute_instruction(&instr, &mut registers, &mut memory).unwrap();

    // Check that pc was written to stack
    let stack_var = memory.read_u16(98);

    assert_eq!(start_address + instr.data.bytes as u16, stack_var);
    // Check pc was updated to input address
    assert_eq!(registers.pc, jump_address);

    // Ensure stack pointer was correctly decremented
    assert_eq!(registers.sp, 98);
    // Ensure cycles data is correct
    assert_eq!(cycles, instr.data.cycles[0])
}

#[test]
fn test_execute_call_nz_true_instruction() {
    let mut registers = CPURegisters::default();
    let mut memory = Memory::default();

    let start_address = 0x44AA;

    // ensure pre-conditions: Z clear, so NZ holds
    registers.pc = start_address;
    registers.f = 0b0000_0000;

    // point sp at unused memory
    registers.sp = 100;

    // CALL NZ, a16
    let instruction = 0xC4;

    let jump_address = 0x6996;
    memory.write_u8(start_address, instruction);
    memory.write_u16(start_address + 1, jump_address);

    let instr = make_instruction("CALL", 3, vec![24, 12]);
    let cycles = execute_instruction(&instr, &mut registers, &mut memory).unwrap();

    // Check that pc was written to stack
    let stack_var = memory.read_u16(98);

    assert_eq!(start_address + instr.data.bytes as u16, stack_var);
    // Check pc was updated to input address
    assert_eq!(registers.pc, jump_address);

    // Ensure stack pointer was correctly decremented
    assert_eq!(registers.sp, 98);
    // Ensure cycles data is correct
    assert_eq!(cycles, instr.data.cycles[0])
}

#[test]
fn test_execute_call_nz_false_instruction() {
    let mut registers = CPURegisters::default();
    let mut memory = Memory::default();

    let start_address = 0x44AA;

    // ensure pre-conditions: Z set, so NZ fails
    registers.pc = start_address;
    registers.f = 0b1000_0000;

    // point sp at unused memory
    registers.sp = 100;

    // CALL NZ, a16
    let instruction = 0xC4;

    let jump_address = 0x6996;
    memory.write_u8(start_address, instruction);
    memory.write_u16(start_address + 1, jump_address);

    let instr = make_instruction("CALL", 3, vec![24, 12]);
    let cycles = execute_instruction(&instr, &mut registers, &mut memory).unwrap();

    // Check that nothing was written to the stack
    let stack_var = memory.read_u16(98);

    assert_eq!(0, stack_var);
    // Check pc stepped past the instruction instead of jumping
    assert_eq!(registers.pc, start_address + instr.data.bytes as u16);

    // Ensure stack pointer was untouched
    assert_eq!(registers.sp, 100);
    // Ensure cycles data is correct
    assert_eq!(cycles, instr.data.cycles[1])
}

#[test]
fn test_execute_unimplemented_opcode() {
    let mut registers = CPURegisters::default();
    let mut memory = Memory::default();

    // HALT is outside the implemented families
    memory.write_u8(0x0, 0x76);

    let r = execute_instruction(&make_instruction("HALT", 1, vec![4]), &mut registers, &mut memory);

    assert_eq!(r, Err(InstructionError::UnimplementedError(0x76)));
    // nothing moved
    assert_eq!(registers.pc, 0);
}

#[test]
fn test_execute_missing_immediate_is_error() {
    let mut registers = CPURegisters::default();
    let mut memory = Memory::default();

    // LD BC,d16 needs a 16-bit immediate, but the entry claims one byte
    memory.write_u8(0x0, 0x01);

    let r = execute_instruction(&make_instruction("LD", 1, vec![12]), &mut registers, &mut memory);

    assert!(matches!(r, Err(InstructionError::InvalidLiteral(None))));
    assert_eq!(registers.pc, 0);
}

#[test]
fn test_execute_ldh_high_page() {
    let mut registers = CPURegisters::default();
    let mut memory = Memory::default();

    // LDH (a8),A stores A at 0xFF00 + a8
    memory.write_u8(0x0, 0xE0);
    memory.write_u8(0x1, 0x80);
    registers.a = 0x5A;

    execute_instruction(&make_instruction("LD", 2, vec![12]), &mut registers, &mut memory)
        .unwrap();

    assert_eq!(memory.read_u8(0xFF80), 0x5A);
    assert_eq!(registers.pc, 2);
}

#[test]
fn test_execute_ld_a_hl_post_increment() {
    let mut registers = CPURegisters::default();
    let mut memory = Memory::default();

    // LD A,(HL+): the read uses the old HL; HL moves afterwards
    memory.write_u8(0x0, 0x2A);
    registers.set_hl(0x0200);
    memory.write_u8(0x0200, 0x77);

    execute_instruction(&make_instruction("LD", 1, vec![8]), &mut registers, &mut memory)
        .unwrap();

    assert_eq!(registers.a, 0x77);
    assert_eq!(registers.get_hl(), 0x0201);
    assert_eq!(registers.pc, 1);
}

#[test]
fn test_execute_ld_hl_sp_offset_flags() {
    let mut registers = CPURegisters::default();
    let mut memory = Memory::default();

    // LD HL,SP+e8 with a low-byte carry: H and C set, Z and N clear
    memory.write_u8(0x0, 0xF8);
    memory.write_u8(0x1, 0x01);
    registers.sp = 0x00FF;

    execute_instruction(&make_instruction("LD", 2, vec![12]), &mut registers, &mut memory)
        .unwrap();

    assert_eq!(registers.get_hl(), 0x0100);
    assert_eq!(registers.f, 0b0011_0000);
    assert_eq!(registers.pc, 2);
}

#[test]
fn test_execute_jp_hl() {
    let mut registers = CPURegisters::default();
    let mut memory = Memory::default();

    // JP (HL) copies HL into PC
    memory.write_u8(0x0, 0xE9);
    registers.set_hl(0x8421);

    let cycles = execute_instruction(&make_instruction("JP", 1, vec![4]), &mut registers, &mut memory)
        .unwrap();

    assert_eq!(registers.pc, 0x8421);
    assert_eq!(cycles, 4);
}

#[test]
fn test_execute_nop_advances_pc() {
    let mut registers = CPURegisters::default();
    let mut memory = Memory::default();

    memory.write_u8(0x0, 0x00);

    let cycles = execute_instruction(&make_instruction("NOP", 1, vec![4]), &mut registers, &mut memory)
        .unwrap();

    assert_eq!(registers.pc, 1);
    assert_eq!(cycles, 4);
}

#[test]
fn test_execute_inc_dec_memory_at_hl() {
    let mut registers = CPURegisters::default();
    let mut memory = Memory::default();

    // INC (HL)
    memory.write_u8(0x0, 0x34);
    registers.set_hl(0x0300);
    memory.write_u8(0x0300, 0xFF);

    execute_instruction(&make_instruction("INC", 1, vec![12]), &mut registers, &mut memory)
        .unwrap();

    assert_eq!(memory.read_u8(0x0300), 0x00);
    // wrapping to zero sets Z and H; C stays clear
    assert_eq!(registers.f, 0b1010_0000);

    // DEC (HL)
    memory.write_u8(0x1, 0x35);
    execute_instruction(&make_instruction("DEC", 1, vec![12]), &mut registers, &mut memory)
        .unwrap();
    assert_eq!(memory.read_u8(0x0300), 0xFF);
    assert_eq!(registers.pc, 2);
}

#[test]
fn test_flag_low_nibble_zero_after_steps() {
    // the low nibble of F is zero after every instruction
    let mut registers = CPURegisters::default();
    let mut memory = Memory::default();

    memory.write_u8(0x0, 0x80); // ADD A,B
    memory.write_u8(0x1, 0x90); // SUB A,B
    memory.write_u8(0x2, 0xA8); // XOR A,B
    registers.a = 0x0F;
    registers.b = 0x01;

    execute_instruction(&make_instruction("ADD", 1, vec![4]), &mut registers, &mut memory)
        .unwrap();
    assert_eq!(registers.f & 0x0F, 0);
    execute_instruction(&make_instruction("SUB", 1, vec![4]), &mut registers, &mut memory)
        .unwrap();
    assert_eq!(registers.f & 0x0F, 0);
    execute_instruction(&make_instruction("XOR", 1, vec![4]), &mut registers, &mut memory)
        .unwrap();
    assert_eq!(registers.f & 0x0F, 0);
}

#[test]
fn test_execute_add_scenario_flags() {
    // ADD A,B with A=10, B=20: result 30, all four flags clear
    let mut registers = CPURegisters::default();
    let mut memory = Memory::default();

    memory.write_u8(0x0, 0x80);
    registers.a = 10;
    registers.b = 20;

    execute_instruction(&make_instruction("ADD", 1, vec![4]), &mut registers, &mut memory)
        .unwrap();

    assert_eq!(registers.a, 30);
    assert_eq!(registers.f, 0);
    assert_eq!(registers.pc, 1);
}
