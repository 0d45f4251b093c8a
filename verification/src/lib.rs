//! Verified core of an ARM7TDMI CPU emulator: the register file with mode
//! banking, the program status registers, the exception entry protocol, a
//! three-stage pipeline model, and the ARM-state instruction classes
//! (branch, multiply, data processing, PSR transfer).
//!
//! Instruction decoding and the memory bus are external collaborators: the
//! executor consumes an already-decoded instruction value, and the pipeline
//! is driven in two phases so that the host performs the memory fetch.

pub mod bits;
pub mod psr;
pub mod exception;
pub mod instruction;
pub mod alu;
pub mod cpu;
pub mod execute;
pub mod laws;
