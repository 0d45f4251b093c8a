//! CPU exceptions: their priorities, entry modes, vector addresses, and
//! whether fast interrupts are disabled on entry.

use vstd::prelude::*;
use crate::psr::Mode;

verus! {

/// The recoverable and fatal error conditions the CPU reports to its
/// host driver.
#[derive(Debug, PartialEq, Eq, Structural, Clone, Copy)]
pub enum CpuError {
    /// User-mode code tried to access a saved program status register.
    PrivilegedUserCode,
    /// The decoder flagged an ill-formed opcode; the host raises the
    /// `UndefinedInstruction` exception in response.
    InvalidInstruction,
    /// A memory access reported a fault; the host raises `PrefetchAbort`
    /// or `DataAbort` in response.
    BusFault,
    /// The CPSR holds an unrecognised mode bit pattern. Fatal: the host
    /// aborts emulation.
    IllegalCPUState,
}

/// CPU exceptions.
#[derive(Debug, PartialEq, Eq, Structural, Clone, Copy)]
pub enum Exception {
    /// Exception due to resetting the CPU.
    Reset,
    /// Exception due to executing undefined instructions.
    UndefinedInstruction,
    /// Exception due to executing SWI.
    SoftwareInterrupt,
    /// Instruction prefetching aborted.
    PrefetchAbort,
    /// Data prefetching aborted.
    DataAbort,
    /// Exception due to resolving large addresses.
    AddressExceeds26Bit,
    /// Exception due to a normal hardware interrupt.
    NormalInterrupt,
    /// Exception due to a fast hardware interrupt.
    FastInterrupt,
}

/// The priority of an exception: 1 is the highest, 7 the lowest.
pub open spec fn priority_of(e: Exception) -> u8 {
    match e {
        Exception::Reset => 1,
        Exception::UndefinedInstruction => 7,
        Exception::SoftwareInterrupt => 6,
        Exception::PrefetchAbort => 5,
        Exception::DataAbort => 2,
        Exception::AddressExceeds26Bit => 3,
        Exception::NormalInterrupt => 4,
        Exception::FastInterrupt => 3,
    }
}

/// The mode the CPU enters when handling an exception.
pub open spec fn entry_mode_of(e: Exception) -> Mode {
    match e {
        Exception::Reset => Mode::Supervisor,
        Exception::UndefinedInstruction => Mode::Undefined,
        Exception::SoftwareInterrupt => Mode::Supervisor,
        Exception::PrefetchAbort => Mode::Abort,
        Exception::DataAbort => Mode::Abort,
        Exception::AddressExceeds26Bit => Mode::Supervisor,
        Exception::NormalInterrupt => Mode::IRQ,
        Exception::FastInterrupt => Mode::FIQ,
    }
}

/// Whether fast interrupts are disabled when the exception is entered.
pub open spec fn disables_fiq(e: Exception) -> bool {
    e == Exception::Reset || e == Exception::FastInterrupt
}

/// The physical address of an exception's vector entry.
pub open spec fn vector_of(e: Exception) -> u32 {
    match e {
        Exception::Reset => 0x00,
        Exception::UndefinedInstruction => 0x04,
        Exception::SoftwareInterrupt => 0x08,
        Exception::PrefetchAbort => 0x0C,
        Exception::DataAbort => 0x10,
        Exception::AddressExceeds26Bit => 0x14,
        Exception::NormalInterrupt => 0x18,
        Exception::FastInterrupt => 0x1C,
    }
}

/// How many bytes behind the visible R15 the return address of an
/// exception lies. The visible R15 reads eight bytes ahead of the
/// executing instruction, so the link register becomes the address of the
/// instruction after the offending one for SWI and undefined instructions,
/// and the visible R15 itself for the interrupt and abort kinds.
pub open spec fn return_offset_of(e: Exception) -> u32 {
    match e {
        Exception::SoftwareInterrupt => 4,
        Exception::UndefinedInstruction => 4,
        _ => 0,
    }
}

impl Exception {
    /// Get the exception's priority: 1 is the highest, 7 the lowest.
    pub fn priority(self) -> (r: u8)
        ensures
            r == priority_of(self),
    {
        match self {
            Exception::Reset => 1,
            Exception::UndefinedInstruction => 7,
            Exception::SoftwareInterrupt => 6,
            Exception::PrefetchAbort => 5,
            Exception::DataAbort => 2,
            Exception::AddressExceeds26Bit => 3,
            Exception::NormalInterrupt => 4,
            Exception::FastInterrupt => 3,
        }
    }

    /// Get the exception's CPU mode on entry.
    pub fn mode_on_entry(self) -> (r: Mode)
        ensures
            r == entry_mode_of(self),
    {
        match self {
            Exception::Reset => Mode::Supervisor,
            Exception::UndefinedInstruction => Mode::Undefined,
            Exception::SoftwareInterrupt => Mode::Supervisor,
            Exception::PrefetchAbort => Mode::Abort,
            Exception::DataAbort => Mode::Abort,
            Exception::AddressExceeds26Bit => Mode::Supervisor,
            Exception::NormalInterrupt => Mode::IRQ,
            Exception::FastInterrupt => Mode::FIQ,
        }
    }

    /// Check whether fast interrupts should be disabled on entry.
    pub fn disable_fiq_on_entry(self) -> (r: bool)
        ensures
            r == disables_fiq(self),
    {
        self == Exception::Reset || self == Exception::FastInterrupt
    }

    /// Get the exception vector address.
    pub fn vector_address(self) -> (r: u32)
        ensures
            r == vector_of(self),
    {
        match self {
            Exception::Reset => 0x00,
            Exception::UndefinedInstruction => 0x04,
            Exception::SoftwareInterrupt => 0x08,
            Exception::PrefetchAbort => 0x0C,
            Exception::DataAbort => 0x10,
            Exception::AddressExceeds26Bit => 0x14,
            Exception::NormalInterrupt => 0x18,
            Exception::FastInterrupt => 0x1C,
        }
    }

    /// How many bytes behind the visible R15 this exception's return
    /// address lies.
    pub fn return_offset(self) -> (r: u32)
        ensures
            r == return_offset_of(self),
    {
        match self {
            Exception::SoftwareInterrupt => 4,
            Exception::UndefinedInstruction => 4,
            _ => 0,
        }
    }
}

} // verus!
