//! The program status word: execution state, execution mode, and the
//! Current Program Status Register with its flag, control and mode fields.

use vstd::prelude::*;
use crate::bits::{
    FLAG_N, FLAG_Z, FLAG_C, FLAG_V, FLAG_I, FLAG_F, FLAG_T, MODE_MASK, RESERVED_MASK,
    masked_write, write_masked, lemma_psr_masked_write, lemma_condition_bits,
};

verus! {

/// Bit pattern for user mode.
pub const MODE_USER: u32 = 0x10;
/// Bit pattern for FIQ mode.
pub const MODE_FIQ: u32 = 0x11;
/// Bit pattern for IRQ mode.
pub const MODE_IRQ: u32 = 0x12;
/// Bit pattern for supervisor mode.
pub const MODE_SUPERVISOR: u32 = 0x13;
/// Bit pattern for abort mode.
pub const MODE_ABORT: u32 = 0x17;
/// Bit pattern for undefined mode.
pub const MODE_UNDEFINED: u32 = 0x1B;
/// Bit pattern for system mode.
pub const MODE_SYSTEM: u32 = 0x1F;

/// The CPU's instruction decoding states.
#[derive(Debug, PartialEq, Eq, Structural, Clone, Copy)]
pub enum State {
    /// Currently executing 32-bit ARM instructions.
    ARM,
    /// Currently executing 16-bit THUMB instructions.
    THUMB,
}

/// The CPU's different execution modes.
#[derive(Debug, PartialEq, Eq, Structural, Clone, Copy)]
pub enum Mode {
    /// CPU mode for running normal user code.
    User,
    /// CPU mode for handling fast interrupts.
    FIQ,
    /// CPU mode for handling normal interrupts.
    IRQ,
    /// CPU mode for executing supervisor code.
    Supervisor,
    /// CPU mode entered if memory lookups are aborted.
    Abort,
    /// CPU mode entered if executing an undefined instruction.
    Undefined,
    /// CPU mode for executing system code.
    System,
}

/// The CPSR bit pattern of a mode.
pub open spec fn mode_bits_of(m: Mode) -> u32 {
    match m {
        Mode::User => MODE_USER,
        Mode::FIQ => MODE_FIQ,
        Mode::IRQ => MODE_IRQ,
        Mode::Supervisor => MODE_SUPERVISOR,
        Mode::Abort => MODE_ABORT,
        Mode::Undefined => MODE_UNDEFINED,
        Mode::System => MODE_SYSTEM,
    }
}

/// The bank index of a mode: User, FIQ, IRQ, Supervisor, Abort, Undefined,
/// System in that order.
pub open spec fn mode_ix(m: Mode) -> int {
    match m {
        Mode::User => 0,
        Mode::FIQ => 1,
        Mode::IRQ => 2,
        Mode::Supervisor => 3,
        Mode::Abort => 4,
        Mode::Undefined => 5,
        Mode::System => 6,
    }
}

/// Whether the mode bits of a status word hold one of the seven defined
/// patterns.
pub open spec fn valid_mode_bits(w: u32) -> bool {
    let m = w & MODE_MASK;
    m == MODE_USER || m == MODE_FIQ || m == MODE_IRQ || m == MODE_SUPERVISOR || m == MODE_ABORT
        || m == MODE_UNDEFINED || m == MODE_SYSTEM
}

/// The mode a status word's mode bits denote; meaningful only when
/// [`valid_mode_bits`] holds.
pub open spec fn mode_of(w: u32) -> Mode {
    let m = w & MODE_MASK;
    if m == MODE_USER {
        Mode::User
    } else if m == MODE_FIQ {
        Mode::FIQ
    } else if m == MODE_IRQ {
        Mode::IRQ
    } else if m == MODE_SUPERVISOR {
        Mode::Supervisor
    } else if m == MODE_ABORT {
        Mode::Abort
    } else if m == MODE_UNDEFINED {
        Mode::Undefined
    } else {
        Mode::System
    }
}

/// The state a status word's T bit denotes.
pub open spec fn state_of(w: u32) -> State {
    if w & FLAG_T != 0 {
        State::THUMB
    } else {
        State::ARM
    }
}

/// A status word split into its defined fields.
pub struct PsrBits {
    /// Sign of the last result.
    pub n: bool,
    /// Last result was zero.
    pub z: bool,
    /// Carry or no-borrow.
    pub c: bool,
    /// Signed overflow.
    pub v: bool,
    /// IRQ disabled.
    pub i: bool,
    /// FIQ disabled.
    pub f: bool,
    /// THUMB state.
    pub t: bool,
    /// Mode bits 4..0.
    pub m: u32,
    /// Reserved bits 27..8.
    pub res: u32,
}

/// The fields of a status word.
pub open spec fn psr_bits(w: u32) -> PsrBits {
    PsrBits {
        n: w & FLAG_N != 0,
        z: w & FLAG_Z != 0,
        c: w & FLAG_C != 0,
        v: w & FLAG_V != 0,
        i: w & FLAG_I != 0,
        f: w & FLAG_F != 0,
        t: w & FLAG_T != 0,
        m: w & MODE_MASK,
        res: w & RESERVED_MASK,
    }
}

/// The word `w` with the single flag selected by `mask` set to `b`.
pub open spec fn with_flag(w: u32, b: bool, mask: u32) -> u32 {
    masked_write(w, if b {
        mask
    } else {
        0u32
    }, mask)
}

/// A word whose mode bits spell `m` denotes `m` and is valid.
pub proof fn lemma_mode_of_bits(w: u32, m: Mode)
    requires
        w & MODE_MASK == mode_bits_of(m),
    ensures
        mode_of(w) == m,
        valid_mode_bits(w),
{
}

/// A valid status word's mode bits spell the pattern of the mode it
/// denotes.
pub proof fn lemma_mode_bits_of_mode_of(w: u32)
    requires
        valid_mode_bits(w),
    ensures
        mode_bits_of(mode_of(w)) == w & MODE_MASK,
{
}

impl Mode {
    /// Converts this mode into a CPSR bit pattern.
    pub fn as_bits(self) -> (r: u32)
        ensures
            r == mode_bits_of(self),
            r < 32,
    {
        match self {
            Mode::User => MODE_USER,
            Mode::FIQ => MODE_FIQ,
            Mode::IRQ => MODE_IRQ,
            Mode::Supervisor => MODE_SUPERVISOR,
            Mode::Abort => MODE_ABORT,
            Mode::Undefined => MODE_UNDEFINED,
            Mode::System => MODE_SYSTEM,
        }
    }

    /// The index of this mode's bank of saved registers.
    pub fn bank_index(self) -> (i: usize)
        ensures
            i == mode_ix(self),
    {
        match self {
            Mode::User => 0,
            Mode::FIQ => 1,
            Mode::IRQ => 2,
            Mode::Supervisor => 3,
            Mode::Abort => 4,
            Mode::Undefined => 5,
            Mode::System => 6,
        }
    }
}

/// The Current Program Status Register.
#[derive(Debug, PartialEq, Eq, Structural, Clone, Copy)]
pub struct CPSR(pub u32);

impl CPSR {
    /// Clears all reserved bits.
    pub fn clear_reserved_bits(&mut self)
        ensures
            psr_bits(final(self).0) == (PsrBits { res: 0u32, ..psr_bits(old(self).0) }),
            final(self).0 == masked_write(old(self).0, 0u32, RESERVED_MASK),
    {
        let w = self.0;
        let nw = write_masked(w, 0, RESERVED_MASK);
        proof {
            lemma_psr_masked_write(w, 0, RESERVED_MASK);
        }
        self.0 = nw;
    }

    /// Get the condition bits, laid out as NZCV in bits 3..0.
    pub fn condition_bits(&self) -> (r: u32)
        ensures
            r == self.0 >> 28u32,
            r < 16,
            (r & 8 != 0) == psr_bits(self.0).n,
            (r & 4 != 0) == psr_bits(self.0).z,
            (r & 2 != 0) == psr_bits(self.0).c,
            (r & 1 != 0) == psr_bits(self.0).v,
    {
        proof {
            lemma_condition_bits(self.0);
        }
        self.0 >> 28u32
    }

    /// Converts the state bit to a state enum.
    pub fn state(&self) -> (r: State)
        ensures
            r == state_of(self.0),
    {
        if self.0 & FLAG_T != 0 {
            State::THUMB
        } else {
            State::ARM
        }
    }

    /// Whether the mode bits hold one of the seven defined patterns.
    pub fn mode_is_valid(&self) -> (b: bool)
        ensures
            b == valid_mode_bits(self.0),
    {
        let m = self.0 & MODE_MASK;
        m == MODE_USER || m == MODE_FIQ || m == MODE_IRQ || m == MODE_SUPERVISOR
            || m == MODE_ABORT || m == MODE_UNDEFINED || m == MODE_SYSTEM
    }

    /// Converts the mode bit pattern to a mode enum. The caller must know
    /// the pattern is one of the seven defined ones; an unrecognised
    /// pattern is the fatal `IllegalCPUState` condition, which callers
    /// check with [`CPSR::mode_is_valid`] first.
    pub fn mode(&self) -> (r: Mode)
        requires
            valid_mode_bits(self.0),
        ensures
            r == mode_of(self.0),
    {
        let m = self.0 & MODE_MASK;
        if m == MODE_USER {
            Mode::User
        } else if m == MODE_FIQ {
            Mode::FIQ
        } else if m == MODE_IRQ {
            Mode::IRQ
        } else if m == MODE_SUPERVISOR {
            Mode::Supervisor
        } else if m == MODE_ABORT {
            Mode::Abort
        } else if m == MODE_UNDEFINED {
            Mode::Undefined
        } else {
            Mode::System
        }
    }

    /// Sets or clears the state bit depending on the new state.
    pub fn set_state(&mut self, s: State)
        ensures
            psr_bits(final(self).0) == (PsrBits {
                t: s == State::THUMB,
                ..psr_bits(old(self).0)
            }),
            state_of(final(self).0) == s,
            final(self).0 == masked_write(old(self).0, if s == State::THUMB { FLAG_T } else { 0u32 }, FLAG_T),
    {
        let vv: u32 = match s {
            State::ARM => 0,
            State::THUMB => FLAG_T,
        };
        let w = self.0;
        let nw = write_masked(w, vv, FLAG_T);
        proof {
            lemma_psr_masked_write(w, vv, FLAG_T);
        }
        self.0 = nw;
    }

    /// Sets or clears the mode bits depending on the new mode.
    pub fn set_mode(&mut self, m: Mode)
        ensures
            psr_bits(final(self).0) == (PsrBits { m: mode_bits_of(m), ..psr_bits(old(self).0) }),
            valid_mode_bits(final(self).0),
            mode_of(final(self).0) == m,
            final(self).0 == masked_write(old(self).0, mode_bits_of(m), MODE_MASK),
    {
        let vv = m.as_bits();
        let w = self.0;
        let nw = write_masked(w, vv, MODE_MASK);
        proof {
            lemma_psr_masked_write(w, vv, MODE_MASK);
            lemma_mode_of_bits(nw, m);
        }
        self.0 = nw;
    }

    /// Sets the IRQ disable bit.
    pub fn disable_irq(&mut self)
        ensures
            psr_bits(final(self).0) == (PsrBits { i: true, ..psr_bits(old(self).0) }),
            final(self).0 == masked_write(old(self).0, FLAG_I, FLAG_I),
    {
        let w = self.0;
        let nw = write_masked(w, FLAG_I, FLAG_I);
        proof {
            lemma_psr_masked_write(w, FLAG_I, FLAG_I);
        }
        self.0 = nw;
    }

    /// Sets the FIQ disable bit.
    pub fn disable_fiq(&mut self)
        ensures
            psr_bits(final(self).0) == (PsrBits { f: true, ..psr_bits(old(self).0) }),
            final(self).0 == masked_write(old(self).0, FLAG_F, FLAG_F),
    {
        let w = self.0;
        let nw = write_masked(w, FLAG_F, FLAG_F);
        proof {
            lemma_psr_masked_write(w, FLAG_F, FLAG_F);
        }
        self.0 = nw;
    }

    /// Clears the IRQ disable bit.
    pub fn enable_irq(&mut self)
        ensures
            psr_bits(final(self).0) == (PsrBits { i: false, ..psr_bits(old(self).0) }),
            final(self).0 == masked_write(old(self).0, 0u32, FLAG_I),
    {
        let w = self.0;
        let nw = write_masked(w, 0, FLAG_I);
        proof {
            lemma_psr_masked_write(w, 0, FLAG_I);
        }
        self.0 = nw;
    }

    /// Clears the FIQ disable bit.
    pub fn enable_fiq(&mut self)
        ensures
            psr_bits(final(self).0) == (PsrBits { f: false, ..psr_bits(old(self).0) }),
            final(self).0 == masked_write(old(self).0, 0u32, FLAG_F),
    {
        let w = self.0;
        let nw = write_masked(w, 0, FLAG_F);
        proof {
            lemma_psr_masked_write(w, 0, FLAG_F);
        }
        self.0 = nw;
    }

    /// Gets the current state of the N bit.
    #[allow(non_snake_case)]
    pub fn N(self) -> (r: bool)
        ensures
            r == psr_bits(self.0).n,
    {
        0 != (self.0 & FLAG_N)
    }

    /// Gets the current state of the Z bit.
    #[allow(non_snake_case)]
    pub fn Z(self) -> (r: bool)
        ensures
            r == psr_bits(self.0).z,
    {
        0 != (self.0 & FLAG_Z)
    }

    /// Gets the current state of the C bit.
    #[allow(non_snake_case)]
    pub fn C(self) -> (r: bool)
        ensures
            r == psr_bits(self.0).c,
    {
        0 != (self.0 & FLAG_C)
    }

    /// Gets the current state of the V bit.
    #[allow(non_snake_case)]
    pub fn V(self) -> (r: bool)
        ensures
            r == psr_bits(self.0).v,
    {
        0 != (self.0 & FLAG_V)
    }

    /// Set the new state of the N bit.
    #[allow(non_snake_case)]
    pub fn set_N(&mut self, n: bool)
        ensures
            psr_bits(final(self).0) == (PsrBits { n: n, ..psr_bits(old(self).0) }),
            final(self).0 == masked_write(old(self).0, if n { FLAG_N } else { 0u32 }, FLAG_N),
    {
        let vv: u32 = if n {
            FLAG_N
        } else {
            0
        };
        let w = self.0;
        let nw = write_masked(w, vv, FLAG_N);
        proof {
            lemma_psr_masked_write(w, vv, FLAG_N);
        }
        self.0 = nw;
    }

    /// Set the new state of the Z bit.
    #[allow(non_snake_case)]
    pub fn set_Z(&mut self, z: bool)
        ensures
            psr_bits(final(self).0) == (PsrBits { z: z, ..psr_bits(old(self).0) }),
            final(self).0 == masked_write(old(self).0, if z { FLAG_Z } else { 0u32 }, FLAG_Z),
    {
        let vv: u32 = if z {
            FLAG_Z
        } else {
            0
        };
        let w = self.0;
        let nw = write_masked(w, vv, FLAG_Z);
        proof {
            lemma_psr_masked_write(w, vv, FLAG_Z);
        }
        self.0 = nw;
    }

    /// Set the new state of the C bit.
    #[allow(non_snake_case)]
    pub fn set_C(&mut self, c: bool)
        ensures
            psr_bits(final(self).0) == (PsrBits { c: c, ..psr_bits(old(self).0) }),
            final(self).0 == masked_write(old(self).0, if c { FLAG_C } else { 0u32 }, FLAG_C),
    {
        let vv: u32 = if c {
            FLAG_C
        } else {
            0
        };
        let w = self.0;
        let nw = write_masked(w, vv, FLAG_C);
        proof {
            lemma_psr_masked_write(w, vv, FLAG_C);
        }
        self.0 = nw;
    }

    /// Set the new state of the V bit.
    #[allow(non_snake_case)]
    pub fn set_V(&mut self, v: bool)
        ensures
            psr_bits(final(self).0) == (PsrBits { v: v, ..psr_bits(old(self).0) }),
            final(self).0 == masked_write(old(self).0, if v { FLAG_V } else { 0u32 }, FLAG_V),
    {
        let vv: u32 = if v {
            FLAG_V
        } else {
            0
        };
        let w = self.0;
        let nw = write_masked(w, vv, FLAG_V);
        proof {
            lemma_psr_masked_write(w, vv, FLAG_V);
        }
        self.0 = nw;
    }
}

} // verus!
