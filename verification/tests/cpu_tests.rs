//! Tests of the CPU core: construction, reset, exception entry, mode
//! banking, and the two-phase pipeline step.

use arm7tdmi::cpu::Arm7Tdmi;
use arm7tdmi::psr::{Mode, State};
use arm7tdmi::exception::Exception;
use arm7tdmi::instruction::{
    ArmInstruction, ArmOpcode, ArmDPOP, Condition, Op2, Op2Base, Op2Amount, ShiftType, NOP_RAW,
};

fn dp_reg(dpop: ArmDPOP, rd: usize, rn: usize, rm: usize, sflag: bool) -> ArmInstruction {
    ArmInstruction {
        cond: Condition::AL,
        op: ArmOpcode::DataProcessing,
        rm: 0,
        rn,
        rd,
        rs: 0,
        sflag,
        acc: false,
        sign: false,
        link: false,
        spsr_f: false,
        dpop_f: dpop,
        boffset: 0,
        op2: Op2 {
            base: Op2Base::Register(rm),
            stype: ShiftType::LSL,
            amount: Op2Amount::Fixed(0),
        },
    }
}

fn msr_reg_cpsr(rm: usize) -> ArmInstruction {
    ArmInstruction {
        cond: Condition::AL,
        op: ArmOpcode::MSR_Reg,
        rm,
        rn: 0,
        rd: 0,
        rs: 0,
        sflag: false,
        acc: false,
        sign: false,
        link: false,
        spsr_f: false,
        dpop_f: ArmDPOP::MOV,
        boffset: 0,
        op2: Op2 {
            base: Op2Base::Register(0),
            stype: ShiftType::LSL,
            amount: Op2Amount::Fixed(0),
        },
    }
}

#[test]
fn new_cpu_is_zeroed_in_system_mode() {
    let cpu = Arm7Tdmi::new();
    for i in 0..16 {
        assert_eq!(cpu.reg(i), 0);
    }
    assert_eq!(cpu.mode(), Mode::System);
    assert_eq!(cpu.state(), State::ARM);
    assert_eq!(cpu.fetched_word(), NOP_RAW);
    assert_eq!(cpu.decoded_inst(), ArmInstruction::nop());
}

#[test]
fn reset_enters_supervisor_with_interrupts_disabled() {
    let mut cpu = Arm7Tdmi::new();
    cpu.set_reg(15, 0x1234);
    cpu.reset();
    assert_eq!(cpu.reg(15), 0);
    assert_eq!(cpu.mode(), Mode::Supervisor);
    assert_eq!(cpu.state(), State::ARM);
    let w = cpu.cpsr().0;
    assert_ne!(w & 0x80, 0, "IRQs disabled");
    assert_ne!(w & 0x40, 0, "FIQs disabled");
    assert_eq!(w & 0x20, 0, "ARM state");
    assert_eq!(w & 0x1F, 0x13, "Supervisor mode bits");
}

#[test]
fn swi_entry_from_user_mode() {
    let mut cpu = Arm7Tdmi::new();
    cpu.reset();
    // Drop to User mode with no flags: write 0x10 to the CPSR.
    cpu.set_reg(1, 0x10);
    assert_eq!(cpu.execute_arm_state(msr_reg_cpsr(1)), Ok(()));
    assert_eq!(cpu.cpsr().0, 0x10);
    assert_eq!(cpu.mode(), Mode::User);
    cpu.set_reg(15, 0x200);

    cpu.exception(Exception::SoftwareInterrupt);

    assert_eq!(cpu.mode(), Mode::Supervisor);
    assert_eq!(cpu.reg(15), 0x08);
    let w = cpu.cpsr().0;
    assert_ne!(w & 0x80, 0, "IRQs disabled on entry");
    assert_eq!(w & 0x40, 0, "FIQ disable unchanged");
    assert_eq!(cpu.spsr_of(Mode::Supervisor), 0x10, "pre-exception CPSR saved");
    assert_eq!(cpu.banked_r14(Mode::Supervisor), 0x1FC, "return address in R14_svc");
    assert_eq!(cpu.reg(14), 0x1FC);
}

#[test]
fn mode_change_swaps_the_banks() {
    let mut cpu = Arm7Tdmi::new();
    cpu.change_mode(Mode::User);
    cpu.set_reg(13, 0xAAAA);
    cpu.set_reg(8, 0x11);

    // Give the FIQ banks recognisable contents.
    cpu.change_mode(Mode::FIQ);
    cpu.set_reg(13, 0xBBBB);
    cpu.set_reg(8, 0xF8);
    cpu.change_mode(Mode::User);
    assert_eq!(cpu.reg(13), 0xAAAA);
    assert_eq!(cpu.reg(8), 0x11);

    // The swap under test: User into FIQ.
    cpu.change_mode(Mode::FIQ);
    assert_eq!(cpu.reg(13), 0xBBBB, "visible R13 is the FIQ bank");
    assert_eq!(cpu.banked_r13(Mode::User), 0xAAAA, "User R13 saved");
    assert_eq!(cpu.reg(8), 0xF8, "visible R8 is the FIQ bank");
    assert_eq!(cpu.banked_r8_r12(false, 0), 0x11, "common R8 bank saved");
}

#[test]
fn mode_round_trip_restores_registers() {
    let mut cpu = Arm7Tdmi::new();
    cpu.change_mode(Mode::Supervisor);
    cpu.set_reg(13, 0x5001);
    cpu.set_reg(14, 0x5002);
    cpu.set_reg(8, 0x5008);
    cpu.set_reg(12, 0x500C);
    cpu.change_mode(Mode::FIQ);
    cpu.set_reg(13, 0x6001);
    cpu.set_reg(8, 0x6008);
    cpu.change_mode(Mode::Supervisor);
    assert_eq!(cpu.reg(13), 0x5001);
    assert_eq!(cpu.reg(14), 0x5002);
    assert_eq!(cpu.reg(8), 0x5008);
    assert_eq!(cpu.reg(12), 0x500C);
}

#[test]
fn undefined_instruction_exception_entry() {
    let mut cpu = Arm7Tdmi::new();
    cpu.reset();
    cpu.set_reg(15, 0x100);
    cpu.exception(Exception::UndefinedInstruction);
    assert_eq!(cpu.mode(), Mode::Undefined);
    assert_eq!(cpu.reg(15), 0x04);
    assert_eq!(cpu.banked_r14(Mode::Undefined), 0xFC);
}

#[test]
fn fiq_entry_disables_fiq_and_swaps_banks() {
    let mut cpu = Arm7Tdmi::new();
    cpu.reset();
    cpu.set_reg(8, 0x88);
    cpu.exception(Exception::FastInterrupt);
    assert_eq!(cpu.mode(), Mode::FIQ);
    assert_eq!(cpu.reg(15), 0x1C);
    let w = cpu.cpsr().0;
    assert_ne!(w & 0x40, 0, "FIQs disabled on entry");
    assert_eq!(cpu.banked_r8_r12(false, 0), 0x88, "common bank saved");
}

#[test]
fn pipeline_step_shifts_and_advances_pc() {
    let mut cpu = Arm7Tdmi::new();
    cpu.set_reg(15, 0x8);
    let add = dp_reg(ArmDPOP::ADD, 0, 1, 2, false);
    // The decode slot holds a no-operation; the supplied decode enters it.
    assert_eq!(cpu.step_execute(add), Ok(()));
    assert_eq!(cpu.decoded_inst(), add);
    assert_eq!(cpu.fetch_address(), 0x8);
    cpu.complete_fetch(0xE1A0_1002);
    assert_eq!(cpu.fetched_word(), 0xE1A0_1002);
    assert_eq!(cpu.reg(15), 0xC);
}

#[test]
fn pipeline_flushes_after_a_branch() {
    let mut cpu = Arm7Tdmi::new();
    cpu.set_reg(15, 0x10);
    let branch = ArmInstruction {
        cond: Condition::AL,
        op: ArmOpcode::B_BL,
        rm: 0,
        rn: 0,
        rd: 0,
        rs: 0,
        sflag: false,
        acc: false,
        sign: false,
        link: false,
        spsr_f: false,
        dpop_f: ArmDPOP::MOV,
        boffset: 0x100,
        op2: Op2 {
            base: Op2Base::Register(0),
            stype: ShiftType::LSL,
            amount: Op2Amount::Fixed(0),
        },
    };
    let next = dp_reg(ArmDPOP::ADD, 0, 1, 2, false);
    // First step: the nop executes, the branch becomes the decode slot.
    assert_eq!(cpu.step_execute(branch), Ok(()));
    cpu.complete_fetch(0x1111_1111);
    // Second step: the branch executes and the pipeline flushes; the
    // supplied decode is discarded.
    assert_eq!(cpu.step_execute(next), Ok(()));
    assert_eq!(cpu.reg(15), 0x114);
    assert_eq!(cpu.decoded_inst(), ArmInstruction::nop());
    assert_eq!(cpu.fetched_word(), NOP_RAW);
}

#[test]
fn step_raises_undefined_instruction_for_reserved_condition() {
    let mut cpu = Arm7Tdmi::new();
    cpu.reset();
    cpu.set_reg(15, 0x40);
    let mut bad = dp_reg(ArmDPOP::ADD, 0, 1, 2, false);
    bad.cond = Condition::NV;
    // Shift the ill-formed instruction into the decode slot, then let it
    // reach the execute stage.
    assert_eq!(cpu.step_execute(bad), Ok(()));
    cpu.complete_fetch(NOP_RAW);
    assert_eq!(cpu.step_execute(ArmInstruction::nop()), Ok(()));
    assert_eq!(cpu.mode(), Mode::Undefined);
    assert_eq!(cpu.reg(15), 0x04);
}
