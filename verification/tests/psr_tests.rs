//! Tests of the status word: flag getters and setters, mode and state
//! conversion, reserved bits, and the exception tables.

use arm7tdmi::psr::{CPSR, Mode, State};
use arm7tdmi::exception::Exception;

#[test]
fn flag_setters_round_trip() {
    let mut p = CPSR(0);
    p.set_N(true);
    p.set_Z(false);
    p.set_C(true);
    p.set_V(true);
    assert!(p.N());
    assert!(!p.Z());
    assert!(p.C());
    assert!(p.V());
    assert_eq!(p.0, 0xB000_0000);
    p.set_N(false);
    assert!(!p.N());
    assert!(p.C());
    assert_eq!(p.0, 0x3000_0000);
}

#[test]
fn irq_fiq_disable_bits() {
    let mut p = CPSR(0x10);
    p.disable_irq();
    assert_eq!(p.0, 0x90);
    p.disable_fiq();
    assert_eq!(p.0, 0xD0);
    p.enable_irq();
    assert_eq!(p.0, 0x50);
    p.enable_fiq();
    assert_eq!(p.0, 0x10);
}

#[test]
fn state_bit_round_trip() {
    let mut p = CPSR(0x13);
    assert_eq!(p.state(), State::ARM);
    p.set_state(State::THUMB);
    assert_eq!(p.state(), State::THUMB);
    assert_eq!(p.0, 0x33);
    p.set_state(State::ARM);
    assert_eq!(p.0, 0x13);
}

#[test]
fn mode_bits_round_trip() {
    let modes = [
        (Mode::User, 0x10u32),
        (Mode::FIQ, 0x11),
        (Mode::IRQ, 0x12),
        (Mode::Supervisor, 0x13),
        (Mode::Abort, 0x17),
        (Mode::Undefined, 0x1B),
        (Mode::System, 0x1F),
    ];
    for (m, bits) in modes {
        assert_eq!(m.as_bits(), bits);
        let mut p = CPSR(0xF000_00C0);
        p.set_mode(m);
        assert!(p.mode_is_valid());
        assert_eq!(p.mode(), m);
        assert_eq!(p.0 & 0x1F, bits);
        // Everything outside the mode field is preserved.
        assert_eq!(p.0 & !0x1Fu32, 0xF000_00C0);
    }
}

#[test]
fn invalid_mode_patterns_are_rejected() {
    assert!(!CPSR(0x00).mode_is_valid());
    assert!(!CPSR(0x15).mode_is_valid());
    assert!(!CPSR(0x1E).mode_is_valid());
    assert!(CPSR(0xD3).mode_is_valid());
}

#[test]
fn clear_reserved_bits_clears_only_reserved() {
    let mut p = CPSR(0xFFFF_FFFF);
    p.clear_reserved_bits();
    assert_eq!(p.0, 0xF000_00FF);
}

#[test]
fn condition_bits_are_nzcv() {
    let p = CPSR(0xB000_0013);
    assert_eq!(p.condition_bits(), 0b1011);
    assert_eq!(CPSR(0).condition_bits(), 0);
    assert_eq!(CPSR(0xF000_0000).condition_bits(), 0b1111);
}

#[test]
fn exception_priorities() {
    assert_eq!(Exception::Reset.priority(), 1);
    assert_eq!(Exception::DataAbort.priority(), 2);
    assert_eq!(Exception::FastInterrupt.priority(), 3);
    assert_eq!(Exception::AddressExceeds26Bit.priority(), 3);
    assert_eq!(Exception::NormalInterrupt.priority(), 4);
    assert_eq!(Exception::PrefetchAbort.priority(), 5);
    assert_eq!(Exception::SoftwareInterrupt.priority(), 6);
    assert_eq!(Exception::UndefinedInstruction.priority(), 7);
}

#[test]
fn exception_vectors() {
    assert_eq!(Exception::Reset.vector_address(), 0x00);
    assert_eq!(Exception::UndefinedInstruction.vector_address(), 0x04);
    assert_eq!(Exception::SoftwareInterrupt.vector_address(), 0x08);
    assert_eq!(Exception::PrefetchAbort.vector_address(), 0x0C);
    assert_eq!(Exception::DataAbort.vector_address(), 0x10);
    assert_eq!(Exception::AddressExceeds26Bit.vector_address(), 0x14);
    assert_eq!(Exception::NormalInterrupt.vector_address(), 0x18);
    assert_eq!(Exception::FastInterrupt.vector_address(), 0x1C);
}

#[test]
fn exception_entry_modes() {
    assert_eq!(Exception::Reset.mode_on_entry(), Mode::Supervisor);
    assert_eq!(Exception::UndefinedInstruction.mode_on_entry(), Mode::Undefined);
    assert_eq!(Exception::SoftwareInterrupt.mode_on_entry(), Mode::Supervisor);
    assert_eq!(Exception::PrefetchAbort.mode_on_entry(), Mode::Abort);
    assert_eq!(Exception::DataAbort.mode_on_entry(), Mode::Abort);
    assert_eq!(Exception::AddressExceeds26Bit.mode_on_entry(), Mode::Supervisor);
    assert_eq!(Exception::NormalInterrupt.mode_on_entry(), Mode::IRQ);
    assert_eq!(Exception::FastInterrupt.mode_on_entry(), Mode::FIQ);
}

#[test]
fn exception_fiq_disable_on_entry() {
    assert!(Exception::Reset.disable_fiq_on_entry());
    assert!(Exception::FastInterrupt.disable_fiq_on_entry());
    assert!(!Exception::SoftwareInterrupt.disable_fiq_on_entry());
    assert!(!Exception::NormalInterrupt.disable_fiq_on_entry());
    assert!(!Exception::DataAbort.disable_fiq_on_entry());
}
