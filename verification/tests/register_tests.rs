use sm83::cpu_registers::{convert_two_u8s_to_u16, convert_u16_to_two_u8s, CPURegisters};
use sm83::instructions::utils::{check_condition, Condition};

#[test]
fn test_pair_round_trip() {
    // set_r(v); get_r() == v for BC, DE, HL; AF clears the low nibble
    let mut regs = CPURegisters::new();
    let samples: [u16; 5] = [0x0000, 0x00FF, 0x1234, 0xABCD, 0xFFFF];
    for v in samples {
        regs.set_bc(v);
        assert_eq!(regs.get_bc(), v);
        regs.set_de(v);
        assert_eq!(regs.get_de(), v);
        regs.set_hl(v);
        assert_eq!(regs.get_hl(), v);
        regs.set_af(v);
        assert_eq!(regs.get_af(), v & 0xFFF0);
    }
}

#[test]
fn test_set_af_masks_low_nibble() {
    let mut regs = CPURegisters::new();
    regs.set_af(0x12FF);
    assert_eq!(regs.a, 0x12);
    assert_eq!(regs.f, 0xF0);
}

#[test]
fn test_pair_halves() {
    let mut regs = CPURegisters::new();
    regs.set_bc(0x1A0A);
    assert_eq!(regs.b, 0x1A);
    assert_eq!(regs.c, 0x0A);
    regs.set_de(0xBEEF);
    assert_eq!(regs.d, 0xBE);
    assert_eq!(regs.e, 0xEF);
    regs.set_hl(0x0102);
    assert_eq!(regs.h, 0x01);
    assert_eq!(regs.l, 0x02);
}

#[test]
fn test_convert_round_trip() {
    let (hi, lo) = convert_u16_to_two_u8s(0xCAFE);
    assert_eq!((hi, lo), (0xCA, 0xFE));
    assert_eq!(convert_two_u8s_to_u16(hi, lo), 0xCAFE);
}

#[test]
fn test_check_condition_table() {
    // NZ: Z clear; Z: Z set; NC: C clear; C: C set
    assert!(check_condition(0x00, Condition::NotZero));
    assert!(!check_condition(0x80, Condition::NotZero));
    assert!(check_condition(0x80, Condition::Zero));
    assert!(!check_condition(0x00, Condition::Zero));
    assert!(check_condition(0x00, Condition::NotCarry));
    assert!(!check_condition(0x10, Condition::NotCarry));
    assert!(check_condition(0x10, Condition::Carry));
    assert!(!check_condition(0x00, Condition::Carry));
    // other flag bits do not disturb the judgement
    assert!(check_condition(0x60, Condition::NotZero));
    assert!(check_condition(0x90, Condition::Zero));
    assert!(check_condition(0xE0, Condition::NotCarry));
    assert!(check_condition(0x70, Condition::Carry));
}
