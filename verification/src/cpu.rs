//! The ARM7TDMI CPU: the sixteen visible registers, the banked shadow
//! registers, the status registers, the mode change protocol, the
//! exception controller, and the two-phase pipeline step.

use vstd::prelude::*;
use crate::bits::{FLAG_I, FLAG_F, FLAG_T, MODE_MASK, masked_write, lemma_psr_masked_write};
use crate::psr::{
    CPSR, Mode, State, psr_bits, mode_bits_of, mode_ix, mode_of, state_of,
    valid_mode_bits, lemma_mode_of_bits,
};
use crate::exception::{
    Exception, entry_mode_of, disables_fiq, vector_of, return_offset_of,
};
use crate::instruction::{ArmInstruction, inst_wf, nop_inst, NOP_RAW};
use crate::alu::{wadd, wsub, wrapping_add32, wrapping_sub32};

verus! {

/// Register index of the stack pointer.
pub const SP: usize = 13;

/// Register index of the link register.
pub const LR: usize = 14;

/// Register index of the program counter. When read by an executing ARM
/// instruction it yields the fetch-stage address, eight bytes ahead.
pub const PC: usize = 15;

/// The mathematical state of the CPU: the visible register file, the
/// status registers, the banked shadow registers, and the two pipeline
/// slots.
#[verifier::ext_equal]
pub struct CpuView {
    /// The sixteen visible general registers.
    pub gpr: Seq<u32>,
    /// The current program status word.
    pub cpsr: u32,
    /// The saved program status words, one per bank index.
    pub spsr: Seq<u32>,
    /// The FIQ bank of R8..R12.
    pub fiq_bank: Seq<u32>,
    /// The bank of R8..R12 shared by all other modes.
    pub common_bank: Seq<u32>,
    /// The seven banks of R13.
    pub r13_bank: Seq<u32>,
    /// The seven banks of R14.
    pub r14_bank: Seq<u32>,
    /// The raw opcode word most recently fetched.
    pub fetched: u32,
    /// The decoded instruction ready to execute.
    pub decoded: ArmInstruction,
}

/// Well-formedness of a CPU state: the banks have their sizes, the CPSR
/// holds a defined mode and zero reserved bits, every saved status word
/// has zero reserved bits, and the decoded slot is well formed.
pub open spec fn cpu_wf(v: CpuView) -> bool {
    &&& v.gpr.len() == 16
    &&& v.spsr.len() == 7
    &&& v.fiq_bank.len() == 5
    &&& v.common_bank.len() == 5
    &&& v.r13_bank.len() == 7
    &&& v.r14_bank.len() == 7
    &&& valid_mode_bits(v.cpsr)
    &&& psr_bits(v.cpsr).res == 0
    &&& forall|j: int| 0 <= j < 7 ==> psr_bits(#[trigger] v.spsr[j]).res == 0
    &&& inst_wf(v.decoded)
}

/// The mode change protocol, from `old_mode` into `new_mode`: the visible
/// R13 and R14 are saved into `old_mode`'s banks, the CPSR is saved into
/// `new_mode`'s SPSR slot, `new_mode`'s banks are loaded into the visible
/// registers — R14 becomes `ra` instead on exception entry — the R8..R12
/// banks are swapped when exactly one of the modes is FIQ, and the CPSR
/// mode bits become `new_mode`'s pattern.
pub open spec fn change_mode_spec(v: CpuView, old_mode: Mode, new_mode: Mode, ret: Option<u32>)
    -> CpuView {
    let ci = mode_ix(old_mode);
    let ni = mode_ix(new_mode);
    let r14_saved = v.r14_bank.update(ci, v.gpr[14]);
    let r14b = match ret {
        Some(ra) => r14_saved.update(ni, ra),
        None => r14_saved,
    };
    let r14vis = match ret {
        Some(ra) => ra,
        None => r14_saved[ni],
    };
    let r13b = v.r13_bank.update(ci, v.gpr[13]);
    let r13vis = r13b[ni];
    let spsr2 = v.spsr.update(ni, v.cpsr);
    let to_fiq = new_mode == Mode::FIQ && old_mode != Mode::FIQ;
    let from_fiq = old_mode == Mode::FIQ && new_mode != Mode::FIQ;
    let common2 = if to_fiq {
        v.gpr.subrange(8, 13)
    } else {
        v.common_bank
    };
    let fiq2 = if from_fiq {
        v.gpr.subrange(8, 13)
    } else {
        v.fiq_bank
    };
    let vis8 = if to_fiq {
        v.fiq_bank
    } else if from_fiq {
        v.common_bank
    } else {
        v.gpr.subrange(8, 13)
    };
    let gpr2 = Seq::new(16, |i: int|
        if i == 13 {
            r13vis
        } else if i == 14 {
            r14vis
        } else if 8 <= i < 13 {
            vis8[i - 8]
        } else {
            v.gpr[i]
        });
    CpuView {
        gpr: gpr2,
        cpsr: masked_write(v.cpsr, mode_bits_of(new_mode), MODE_MASK),
        spsr: spsr2,
        fiq_bank: fiq2,
        common_bank: common2,
        r13_bank: r13b,
        r14_bank: r14b,
        fetched: v.fetched,
        decoded: v.decoded,
    }
}

/// Exception entry: a mode change into the exception's entry mode with
/// the return address in R14, state forced to ARM, IRQs disabled, FIQs
/// disabled for the kinds that require it, the program counter at the
/// vector address, and the pipeline flushed.
pub open spec fn exception_spec(v: CpuView, e: Exception) -> CpuView {
    let ra = wsub(v.gpr[15], return_offset_of(e));
    let v1 = change_mode_spec(v, mode_of(v.cpsr), entry_mode_of(e), Some(ra));
    let w1 = masked_write(v1.cpsr, 0, FLAG_T);
    let w2 = masked_write(w1, FLAG_I, FLAG_I);
    let w3 = if disables_fiq(e) {
        masked_write(w2, FLAG_F, FLAG_F)
    } else {
        w2
    };
    CpuView {
        gpr: v1.gpr.update(15, vector_of(e)),
        cpsr: w3,
        fetched: NOP_RAW,
        decoded: nop_inst(),
        ..v1
    }
}

/// Reset: the program counter is zeroed first, then the reset exception
/// entry runs.
pub open spec fn reset_spec(v: CpuView) -> CpuView {
    exception_spec(CpuView { gpr: v.gpr.update(15, 0u32), ..v }, Exception::Reset)
}

/// The ARM7TDMI CPU core.
pub struct Arm7Tdmi {
    /// The sixteen visible general registers; R13 is the stack pointer,
    /// R14 the link register, R15 the program counter.
    pub gpr: [u32; 16],
    /// The current program status register.
    pub cpsr: CPSR,
    /// The saved program status words, one per bank index.
    pub spsr: [u32; 7],
    /// The decoded instruction ready to execute.
    pub decoded: ArmInstruction,
    /// The raw opcode word most recently fetched.
    pub fetched: u32,
    /// The FIQ bank of R8..R12.
    pub bank_r8_r12_fiq: [u32; 5],
    /// The bank of R8..R12 shared by all modes but FIQ.
    pub bank_r8_r12_other: [u32; 5],
    /// The seven banks of R13.
    pub bank_r13: [u32; 7],
    /// The seven banks of R14.
    pub bank_r14: [u32; 7],
}

impl View for Arm7Tdmi {
    type V = CpuView;

    open spec fn view(&self) -> CpuView {
        CpuView {
            gpr: self.gpr@,
            cpsr: self.cpsr.0,
            spsr: self.spsr@,
            fiq_bank: self.bank_r8_r12_fiq@,
            common_bank: self.bank_r8_r12_other@,
            r13_bank: self.bank_r13@,
            r14_bank: self.bank_r14@,
            fetched: self.fetched,
            decoded: self.decoded,
        }
    }
}

impl Arm7Tdmi {
    /// Creates a new CPU where all registers are zeroed; the status word
    /// starts in System mode, in ARM state, with nothing disabled, and
    /// the pipeline holds no-operations.
    pub fn new() -> (r: Arm7Tdmi)
        ensures
            cpu_wf(r@),
            forall|i: int| 0 <= i < 16 ==> r@.gpr[i] == 0,
            r@.cpsr == crate::psr::MODE_SYSTEM,
            forall|j: int| 0 <= j < 7 ==> r@.spsr[j] == 0,
            forall|j: int| 0 <= j < 7 ==> r@.r13_bank[j] == 0 && r@.r14_bank[j] == 0,
            forall|j: int| 0 <= j < 5 ==> r@.fiq_bank[j] == 0 && r@.common_bank[j] == 0,
            r@.fetched == NOP_RAW,
            r@.decoded == nop_inst(),
    {
        let r = Arm7Tdmi {
            gpr: [0; 16],
            cpsr: CPSR(crate::psr::MODE_SYSTEM),
            spsr: [0; 7],
            decoded: ArmInstruction::nop(),
            fetched: NOP_RAW,
            bank_r8_r12_fiq: [0; 5],
            bank_r8_r12_other: [0; 5],
            bank_r13: [0; 7],
            bank_r14: [0; 7],
        };
        proof {
            assert(0x1Fu32 & 0x1Fu32 == 0x1Fu32) by (bit_vector);
            assert(0x1Fu32 & 0x0FFF_FF00u32 == 0u32) by (bit_vector);
            assert(0u32 & 0x0FFF_FF00u32 == 0u32) by (bit_vector);
        }
        r
    }

    /// Read-only access to a visible general register.
    pub fn reg(&self, i: usize) -> (r: u32)
        requires
            i < 16,
        ensures
            r == self@.gpr[i as int],
    {
        self.gpr[i]
    }

    /// Debugging aid: overwrite a visible general register. Writing R15
    /// this way does not flush the pipeline.
    pub fn set_reg(&mut self, i: usize, v: u32)
        requires
            i < 16,
        ensures
            final(self)@ == (CpuView { gpr: old(self)@.gpr.update(i as int, v), ..old(self)@ }),
    {
        self.gpr[i] = v;
    }

    /// Read-only access to the current program status register.
    pub fn cpsr(&self) -> (r: CPSR)
        ensures
            r.0 == self@.cpsr,
    {
        self.cpsr
    }

    /// Read-only access to a mode's saved program status word.
    pub fn spsr_of(&self, m: Mode) -> (r: u32)
        ensures
            r == self@.spsr[mode_ix(m)],
    {
        self.spsr[m.bank_index()]
    }

    /// Read-only access to a mode's R13 bank.
    pub fn banked_r13(&self, m: Mode) -> (r: u32)
        ensures
            r == self@.r13_bank[mode_ix(m)],
    {
        self.bank_r13[m.bank_index()]
    }

    /// Read-only access to a mode's R14 bank.
    pub fn banked_r14(&self, m: Mode) -> (r: u32)
        ensures
            r == self@.r14_bank[mode_ix(m)],
    {
        self.bank_r14[m.bank_index()]
    }

    /// Read-only access to the R8..R12 banks: the FIQ bank when `fiq` is
    /// set, else the bank shared by the other modes. `i` counts from R8.
    pub fn banked_r8_r12(&self, fiq: bool, i: usize) -> (r: u32)
        requires
            i < 5,
        ensures
            fiq ==> r == self@.fiq_bank[i as int],
            !fiq ==> r == self@.common_bank[i as int],
    {
        if fiq {
            self.bank_r8_r12_fiq[i]
        } else {
            self.bank_r8_r12_other[i]
        }
    }

    /// The raw opcode word sitting in the fetch slot.
    pub fn fetched_word(&self) -> (r: u32)
        ensures
            r == self@.fetched,
    {
        self.fetched
    }

    /// The decoded instruction sitting in the decode slot.
    pub fn decoded_inst(&self) -> (r: ArmInstruction)
        ensures
            r == self@.decoded,
    {
        self.decoded
    }

    /// The address the next pipeline fetch reads from: the program
    /// counter.
    pub fn fetch_address(&self) -> (r: u32)
        ensures
            r == self@.gpr[15],
    {
        self.gpr[PC]
    }

    /// The current execution mode, derived from the CPSR.
    pub fn mode(&self) -> (r: Mode)
        requires
            valid_mode_bits(self@.cpsr),
        ensures
            r == mode_of(self@.cpsr),
    {
        self.cpsr.mode()
    }

    /// The current execution state, derived from the CPSR's T bit.
    pub fn state(&self) -> (r: State)
        ensures
            r == state_of(self@.cpsr),
    {
        self.cpsr.state()
    }

    /// Fill both pipeline slots with no-operations.
    pub(crate) fn clear_pipeline(&mut self)
        ensures
            final(self)@ == (CpuView {
                fetched: NOP_RAW,
                decoded: nop_inst(),
                ..old(self)@
            }),
    {
        self.decoded = ArmInstruction::nop();
        self.fetched = NOP_RAW;
    }

    /// The mode change protocol, with the outgoing mode passed by the
    /// caller: a whole-PSR write performs the banking after the mode
    /// bits have already been overwritten, so the outgoing mode cannot
    /// always be derived from the CPSR.
    pub(crate) fn change_mode_from(&mut self, old_mode: Mode, new_mode: Mode, ret: Option<u32>)
        requires
            cpu_wf(old(self)@),
        ensures
            final(self)@ == change_mode_spec(old(self)@, old_mode, new_mode, ret),
            cpu_wf(final(self)@),
    {
        let ci = old_mode.bank_index();
        let ni = new_mode.bank_index();

        // Save the visible R13, R14 into the outgoing banks; load or set
        // the incoming ones.
        self.bank_r14[ci] = self.gpr[14];
        match ret {
            Some(ra) => {
                self.bank_r14[ni] = ra;
                self.gpr[14] = ra;
            },
            None => {
                self.gpr[14] = self.bank_r14[ni];
            },
        }
        self.bank_r13[ci] = self.gpr[13];
        self.gpr[13] = self.bank_r13[ni];
        self.spsr[ni] = self.cpsr.0;

        // Swap R8..R12 when exactly one of the modes is FIQ.
        let to_fiq = new_mode == Mode::FIQ && old_mode != Mode::FIQ;
        let from_fiq = old_mode == Mode::FIQ && new_mode != Mode::FIQ;
        if to_fiq {
            self.bank_r8_r12_other[0] = self.gpr[8];
            self.bank_r8_r12_other[1] = self.gpr[9];
            self.bank_r8_r12_other[2] = self.gpr[10];
            self.bank_r8_r12_other[3] = self.gpr[11];
            self.bank_r8_r12_other[4] = self.gpr[12];
            self.gpr[8] = self.bank_r8_r12_fiq[0];
            self.gpr[9] = self.bank_r8_r12_fiq[1];
            self.gpr[10] = self.bank_r8_r12_fiq[2];
            self.gpr[11] = self.bank_r8_r12_fiq[3];
            self.gpr[12] = self.bank_r8_r12_fiq[4];
        } else if from_fiq {
            self.bank_r8_r12_fiq[0] = self.gpr[8];
            self.bank_r8_r12_fiq[1] = self.gpr[9];
            self.bank_r8_r12_fiq[2] = self.gpr[10];
            self.bank_r8_r12_fiq[3] = self.gpr[11];
            self.bank_r8_r12_fiq[4] = self.gpr[12];
            self.gpr[8] = self.bank_r8_r12_other[0];
            self.gpr[9] = self.bank_r8_r12_other[1];
            self.gpr[10] = self.bank_r8_r12_other[2];
            self.gpr[11] = self.bank_r8_r12_other[3];
            self.gpr[12] = self.bank_r8_r12_other[4];
        }

        // Apply the new mode bits.
        self.cpsr.set_mode(new_mode);

        proof {
            let spec_v = change_mode_spec(old(self)@, old_mode, new_mode, ret);
            assert(self@.gpr =~= spec_v.gpr);
            assert(self@.spsr =~= spec_v.spsr);
            assert(self@.fiq_bank =~= spec_v.fiq_bank);
            assert(self@.common_bank =~= spec_v.common_bank);
            assert(self@.r13_bank =~= spec_v.r13_bank);
            assert(self@.r14_bank =~= spec_v.r14_bank);
            assert(self@ =~= spec_v);
        }
    }

    /// A mode change from the current mode, as triggered by an exception
    /// return or a direct request; banks are loaded, none is set to a
    /// return address.
    pub fn change_mode(&mut self, new_mode: Mode)
        requires
            cpu_wf(old(self)@),
        ensures
            final(self)@ == change_mode_spec(old(self)@, mode_of(old(self)@.cpsr), new_mode,
                None),
            cpu_wf(final(self)@),
    {
        let m_old = self.cpsr.mode();
        self.change_mode_from(m_old, new_mode, None);
    }

    /// Causes an exception, switching execution modes and states.
    pub fn exception(&mut self, ex: Exception)
        requires
            cpu_wf(old(self)@),
        ensures
            final(self)@ == exception_spec(old(self)@, ex),
            cpu_wf(final(self)@),
    {
        let ra = wrapping_sub32(self.gpr[PC], ex.return_offset());
        let m_old = self.cpsr.mode();
        self.change_mode_from(m_old, ex.mode_on_entry(), Some(ra));
        proof {
            lemma_psr_masked_write(self@.cpsr, 0, FLAG_T);
        }
        self.cpsr.set_state(State::ARM);
        proof {
            lemma_psr_masked_write(self@.cpsr, FLAG_I, FLAG_I);
        }
        self.cpsr.disable_irq();
        if ex.disable_fiq_on_entry() {
            proof {
                lemma_psr_masked_write(self@.cpsr, FLAG_F, FLAG_F);
            }
            self.cpsr.disable_fiq();
        }
        self.gpr[PC] = ex.vector_address();
        self.clear_pipeline();
        proof {
            let spec_v = exception_spec(old(self)@, ex);
            assert(self@.gpr =~= spec_v.gpr);
            assert(self@ =~= spec_v);
        }
    }

    /// Resets the CPU: the program counter is zeroed and the reset
    /// exception entered, leaving the CPU in Supervisor mode, in ARM
    /// state, with IRQs and FIQs disabled and the program counter at the
    /// reset vector.
    pub fn reset(&mut self)
        requires
            cpu_wf(old(self)@),
        ensures
            final(self)@ == reset_spec(old(self)@),
            cpu_wf(final(self)@),
            final(self)@.gpr[15] == 0,
            mode_of(final(self)@.cpsr) == Mode::Supervisor,
            state_of(final(self)@.cpsr) == State::ARM,
            psr_bits(final(self)@.cpsr).i,
            psr_bits(final(self)@.cpsr).f,
    {
        self.gpr[PC] = 0;
        self.exception(Exception::Reset);
        proof {
            let vpre = CpuView { gpr: old(self)@.gpr.update(15, 0u32), ..old(self)@ };
            let v1 = change_mode_spec(vpre, mode_of(vpre.cpsr), Mode::Supervisor,
                Some(wsub(vpre.gpr[15], 0)));
            let w1 = masked_write(v1.cpsr, 0, FLAG_T);
            let w2 = masked_write(w1, FLAG_I, FLAG_I);
            let w3 = masked_write(w2, FLAG_F, FLAG_F);
            lemma_psr_masked_write(vpre.cpsr, mode_bits_of(Mode::Supervisor), MODE_MASK);
            lemma_psr_masked_write(v1.cpsr, 0, FLAG_T);
            lemma_psr_masked_write(w1, FLAG_I, FLAG_I);
            lemma_psr_masked_write(w2, FLAG_F, FLAG_F);
            lemma_mode_of_bits(w3, Mode::Supervisor);
        }
    }

    /// The fetch phase of a pipeline step: the word read at the fetch
    /// address enters the fetch slot and the program counter advances by
    /// four.
    pub fn complete_fetch(&mut self, w: u32)
        requires
            cpu_wf(old(self)@),
        ensures
            final(self)@ == (CpuView {
                fetched: w,
                gpr: old(self)@.gpr.update(15, wadd(old(self)@.gpr[15], 4)),
                ..old(self)@
            }),
            cpu_wf(final(self)@),
    {
        self.fetched = w;
        let pc = wrapping_add32(self.gpr[PC], 4);
        self.gpr[PC] = pc;
        proof {
            assert(self@.gpr =~= old(self)@.gpr.update(15, wadd(old(self)@.gpr[15], 4)));
            assert(self@ =~= (CpuView {
                fetched: w,
                gpr: old(self)@.gpr.update(15, wadd(old(self)@.gpr[15], 4)),
                ..old(self)@
            }));
        }
    }
}

} // verus!
