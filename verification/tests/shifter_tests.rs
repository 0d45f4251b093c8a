//! Tests of the barrel shifter's edge cases and of the 33-bit adder and
//! multiplies of the ALU.

use arm7tdmi::instruction::{
    ArmInstruction, ArmOpcode, ArmDPOP, Condition, Op2, Op2Base, Op2Amount, ShiftType,
};
use arm7tdmi::alu::{add_carry_overflow, sub_carry_overflow, mul32, mul64, wrapping_add32,
    wrapping_sub32};

fn shift_inst(base: Op2Base, stype: ShiftType, amount: Op2Amount) -> ArmInstruction {
    ArmInstruction {
        cond: Condition::AL,
        op: ArmOpcode::DataProcessing,
        rm: 0,
        rn: 0,
        rd: 0,
        rs: 0,
        sflag: false,
        acc: false,
        sign: false,
        link: false,
        spsr_f: false,
        dpop_f: ArmDPOP::MOV,
        boffset: 0,
        op2: Op2 { base, stype, amount },
    }
}

fn gpr_with(i: usize, v: u32) -> [u32; 16] {
    let mut g = [0u32; 16];
    g[i] = v;
    g
}

#[test]
fn lsl_by_zero_keeps_value_and_carry() {
    let inst = shift_inst(Op2Base::Register(0), ShiftType::LSL, Op2Amount::Fixed(0));
    let g = gpr_with(0, 0x8000_0001);
    assert_eq!(inst.calculate_shft_field_with_carry(&g, true), (0x8000_0001, true));
    assert_eq!(inst.calculate_shft_field_with_carry(&g, false), (0x8000_0001, false));
}

#[test]
fn lsl_shifts_and_carries_the_last_bit_out() {
    let inst = shift_inst(Op2Base::Register(0), ShiftType::LSL, Op2Amount::Fixed(4));
    let g = gpr_with(0, 0x1000_0001);
    assert_eq!(inst.calculate_shft_field_with_carry(&g, false), (0x0000_0010, true));
}

#[test]
fn lsl_by_32_from_register_yields_zero_with_carry_bit0() {
    let mut g = gpr_with(0, 0x8000_0001);
    g[1] = 32;
    let inst = shift_inst(Op2Base::Register(0), ShiftType::LSL, Op2Amount::FromRegister(1));
    assert_eq!(inst.calculate_shft_field_with_carry(&g, false), (0, true));
}

#[test]
fn lsl_by_more_than_32_yields_zero_without_carry() {
    let mut g = gpr_with(0, 0xFFFF_FFFF);
    g[1] = 33;
    let inst = shift_inst(Op2Base::Register(0), ShiftType::LSL, Op2Amount::FromRegister(1));
    assert_eq!(inst.calculate_shft_field_with_carry(&g, true), (0, false));
}

#[test]
fn lsr_immediate_zero_means_shift_by_32() {
    let inst = shift_inst(Op2Base::Register(0), ShiftType::LSR, Op2Amount::Fixed(0));
    let g = gpr_with(0, 0x8000_0000);
    assert_eq!(inst.calculate_shft_field_with_carry(&g, false), (0, true));
}

#[test]
fn lsr_register_zero_means_no_shift() {
    let mut g = gpr_with(0, 0x8000_0000);
    g[1] = 0;
    let inst = shift_inst(Op2Base::Register(0), ShiftType::LSR, Op2Amount::FromRegister(1));
    assert_eq!(inst.calculate_shft_field_with_carry(&g, true), (0x8000_0000, true));
}

#[test]
fn asr_immediate_zero_fills_with_the_sign() {
    let inst = shift_inst(Op2Base::Register(0), ShiftType::ASR, Op2Amount::Fixed(0));
    let neg = gpr_with(0, 0x8000_0000);
    assert_eq!(inst.calculate_shft_field_with_carry(&neg, false), (0xFFFF_FFFF, true));
    let pos = gpr_with(0, 0x7FFF_FFFF);
    assert_eq!(inst.calculate_shft_field_with_carry(&pos, true), (0, false));
}

#[test]
fn asr_keeps_the_sign_while_shifting() {
    let inst = shift_inst(Op2Base::Register(0), ShiftType::ASR, Op2Amount::Fixed(4));
    let g = gpr_with(0, 0x8000_0010);
    assert_eq!(inst.calculate_shft_field_with_carry(&g, false), (0xF800_0001, false));
}

#[test]
fn ror_immediate_zero_means_rrx() {
    let inst = shift_inst(Op2Base::Register(0), ShiftType::ROR, Op2Amount::Fixed(0));
    let g = gpr_with(0, 0x0000_0003);
    // With C set: the carry enters bit 31, bit 0 leaves into the carry.
    assert_eq!(inst.calculate_shft_field_with_carry(&g, true), (0x8000_0001, true));
    assert_eq!(inst.calculate_shft_field_with_carry(&g, false), (0x0000_0001, true));
}

#[test]
fn ror_rotates_and_carries_the_last_bit_out() {
    let inst = shift_inst(Op2Base::Register(0), ShiftType::ROR, Op2Amount::Fixed(8));
    let g = gpr_with(0, 0x0000_00A5);
    assert_eq!(inst.calculate_shft_field_with_carry(&g, false), (0xA500_0000, true));
}

#[test]
fn ror_by_32_keeps_value_with_carry_bit31() {
    let mut g = gpr_with(0, 0x8000_0001);
    g[1] = 32;
    let inst = shift_inst(Op2Base::Register(0), ShiftType::ROR, Op2Amount::FromRegister(1));
    assert_eq!(inst.calculate_shft_field_with_carry(&g, false), (0x8000_0001, true));
}

#[test]
fn immediate_base_passes_through_lsl_zero() {
    let inst = shift_inst(Op2Base::Immediate(0xAB), ShiftType::LSL, Op2Amount::Fixed(0));
    let g = [0u32; 16];
    assert_eq!(inst.calculate_shft_field(&g, true), 0xAB);
}

#[test]
fn register_amount_uses_only_the_bottom_byte() {
    let mut g = gpr_with(0, 0x0000_0010);
    g[1] = 0x0000_0104;  // bottom byte 4
    let inst = shift_inst(Op2Base::Register(0), ShiftType::LSL, Op2Amount::FromRegister(1));
    assert_eq!(inst.calculate_shft_field(&g, false), 0x100);
}

#[test]
fn adder_wraps_and_reports_carry() {
    assert_eq!(add_carry_overflow(0xFFFF_FFFF, 1, 0), (0, true, false));
    assert_eq!(add_carry_overflow(0xFFFF_FFFF, 0, 1), (0, true, false));
    assert_eq!(add_carry_overflow(2, 3, 0), (5, false, false));
}

#[test]
fn adder_reports_signed_overflow() {
    assert_eq!(add_carry_overflow(0x7FFF_FFFF, 1, 0), (0x8000_0000, false, true));
    assert_eq!(add_carry_overflow(0x8000_0000, 0x8000_0000, 0), (0, true, true));
}

#[test]
fn subtracter_reports_no_borrow_as_carry() {
    // 5 - 3: carry set (no borrow).
    assert_eq!(sub_carry_overflow(5, 3, 1), (2, true, false));
    // 3 - 5: borrow, carry clear, result wraps.
    assert_eq!(sub_carry_overflow(3, 5, 1), (0xFFFF_FFFE, false, false));
    // Equal operands: no borrow.
    assert_eq!(sub_carry_overflow(7, 7, 1), (0, true, false));
}

#[test]
fn subtracter_reports_signed_overflow() {
    assert_eq!(sub_carry_overflow(0x8000_0000, 1, 1), (0x7FFF_FFFF, true, true));
}

#[test]
fn multiply_wraps_to_32_bits() {
    assert_eq!(mul32(6, 7, false, 0), 42);
    assert_eq!(mul32(0x1_0000, 0x1_0000, false, 0), 0);
    assert_eq!(mul32(0xFFFF_FFFF, 2, false, 0), 0xFFFF_FFFE);
    assert_eq!(mul32(6, 7, true, 8), 50);
}

#[test]
fn long_multiply_unsigned() {
    assert_eq!(mul64(false, 0xFFFF_FFFF, 0xFFFF_FFFF, false, 0, 0), 0xFFFF_FFFE_0000_0001);
    assert_eq!(mul64(false, 2, 3, true, 1, 4), 0x1_0000_000A);
}

#[test]
fn long_multiply_signed() {
    // (-2) * 3 == -6 in 64-bit two's complement.
    assert_eq!(mul64(true, 0xFFFF_FFFE, 3, false, 0, 0), 0xFFFF_FFFF_FFFF_FFFA);
    // (-1) * (-1) == 1.
    assert_eq!(mul64(true, 0xFFFF_FFFF, 0xFFFF_FFFF, false, 0, 0), 1);
}

#[test]
fn wrapping_address_arithmetic() {
    assert_eq!(wrapping_add32(0xFFFF_FFFC, 8), 4);
    assert_eq!(wrapping_sub32(4, 8), 0xFFFF_FFFC);
    assert_eq!(wrapping_add32(0x10, 0xFFFF_FF00), 0xFFFF_FF10);
}
