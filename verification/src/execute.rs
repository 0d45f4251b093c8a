//! The ARM-state executor: per-opcode-class semantics for branch,
//! multiply, data processing and PSR transfer, the condition gate, and
//! the execute phase of the pipeline step.

use vstd::prelude::*;
use crate::bits::{
    FLAG_N, FLAG_Z, FLAG_C, FLAG_V, FLAG_T, COND_MASK, NON_RESERVED_MASK, masked_write,
    write_masked, lemma_psr_masked_write,
};
use crate::psr::{
    CPSR, Mode, State, psr_bits, with_flag, mode_of, mode_ix, valid_mode_bits,
};
use crate::exception::{CpuError, Exception};
use crate::instruction::{
    ArmInstruction, ArmOpcode, ArmDPOP, Condition, cond_eval, inst_wf, op2_of, msr_operand_of,
    nop_inst, NOP_RAW, dpop_is_logical, dpop_is_test,
};
use crate::alu::{
    add3val, add3carry, add3over, comp32, wadd, wsub, mul_val, mul_long_val, WORD_MODULUS,
    add_carry_overflow, sub_carry_overflow, wrapping_add32, wrapping_sub32, mul32, mul64,
};
use crate::cpu::{Arm7Tdmi, CpuView, cpu_wf, change_mode_spec, exception_spec, PC, LR};

verus! {

/// An instruction the executor can run: well formed and not a memory
/// transfer, which belongs to the external memory bus.
pub open spec fn inst_executable(inst: ArmInstruction) -> bool {
    inst_wf(inst) && inst.op != ArmOpcode::LDR_STR
}

/// Branch and exchange: the state becomes THUMB exactly when bit 0 of the
/// target is set, the program counter becomes the target with bit 0
/// cleared, and the pipeline is flushed.
pub open spec fn bx_spec(v: CpuView, inst: ArmInstruction) -> CpuView {
    let addr = v.gpr[inst.rm as int];
    CpuView {
        cpsr: with_flag(v.cpsr, addr & 1 != 0, FLAG_T),
        gpr: v.gpr.update(15, addr & 0xFFFF_FFFEu32),
        fetched: NOP_RAW,
        decoded: nop_inst(),
        ..v
    }
}

/// Branch, optionally with link: the link register captures the address
/// of the next instruction (the visible R15 less four), the displacement
/// is added to R15 with wrap-around, and the pipeline is flushed.
pub open spec fn b_bl_spec(v: CpuView, inst: ArmInstruction) -> CpuView {
    let gpr1 = if inst.link {
        v.gpr.update(14, wsub(v.gpr[15], 4))
    } else {
        v.gpr
    };
    CpuView {
        gpr: gpr1.update(15, wadd(v.gpr[15], inst.boffset)),
        fetched: NOP_RAW,
        decoded: nop_inst(),
        ..v
    }
}

/// 32-bit multiply: `Rs * Rm`, plus `Rd` when accumulating, written to
/// `Rn`. With the S bit, N and Z reflect the result, C is cleared — the
/// fixed choice for the architecturally meaningless value — and V is
/// unchanged.
pub open spec fn mul_spec(v: CpuView, inst: ArmInstruction) -> CpuView {
    let res = mul_val(v.gpr[inst.rs as int], v.gpr[inst.rm as int], inst.acc,
        v.gpr[inst.rd as int]);
    let cpsr2 = if inst.sflag {
        with_flag(with_flag(with_flag(v.cpsr, res & 0x8000_0000u32 != 0, FLAG_N), res == 0,
            FLAG_Z), false, FLAG_C)
    } else {
        v.cpsr
    };
    CpuView { gpr: v.gpr.update(inst.rn as int, res), cpsr: cpsr2, ..v }
}

/// 64-bit multiply: the signed or unsigned product of `Rs` and `Rm`,
/// plus the concatenation of `Rn` and `Rd` when accumulating; the high
/// half goes to `Rn`, the low half to `Rd`. With the S bit, N is the
/// sign of the 64-bit result, Z its zero test, and C and V are cleared —
/// the fixed choice for the architecturally meaningless values.
pub open spec fn mull_spec(v: CpuView, inst: ArmInstruction) -> CpuView {
    let r64 = mul_long_val(inst.sign, v.gpr[inst.rs as int], v.gpr[inst.rm as int], inst.acc,
        v.gpr[inst.rn as int], v.gpr[inst.rd as int]);
    let hi = (r64 / WORD_MODULUS) as u32;
    let lo = (r64 % WORD_MODULUS) as u32;
    let cpsr2 = if inst.sflag {
        with_flag(with_flag(with_flag(with_flag(v.cpsr, r64 >= 0x8000_0000_0000_0000u64,
            FLAG_N), r64 == 0, FLAG_Z), false, FLAG_C), false, FLAG_V)
    } else {
        v.cpsr
    };
    CpuView {
        gpr: v.gpr.update(inst.rn as int, hi).update(inst.rd as int, lo),
        cpsr: cpsr2,
        ..v
    }
}

/// The result of a data-processing operation on `a` and `b` with the
/// carry flag `c`, every arithmetic case expressed through the 33-bit
/// adder: a subtraction adds the complement, with carry in one for the
/// plain subtractions and the C flag for the carry variants.
pub open spec fn dp_value(op: ArmDPOP, a: u32, b: u32, c: bool) -> u32 {
    let ci: u32 = if c {
        1
    } else {
        0
    };
    match op {
        ArmDPOP::AND | ArmDPOP::TST => a & b,
        ArmDPOP::EOR | ArmDPOP::TEQ => a ^ b,
        ArmDPOP::SUB | ArmDPOP::CMP => add3val(a, comp32(b), 1),
        ArmDPOP::RSB => add3val(b, comp32(a), 1),
        ArmDPOP::ADD | ArmDPOP::CMN => add3val(a, b, 0),
        ArmDPOP::ADC => add3val(a, b, ci),
        ArmDPOP::SBC => add3val(a, comp32(b), ci),
        ArmDPOP::RSC => add3val(b, comp32(a), ci),
        ArmDPOP::ORR => a | b,
        ArmDPOP::MOV => b,
        ArmDPOP::BIC => a & comp32(b),
        ArmDPOP::MVN => comp32(b),
    }
}

/// The carry flag an arithmetic data-processing operation produces: the
/// carry out of its 33-bit sum. Meaningless for the logical operations,
/// whose C flag comes from the shifter instead.
pub open spec fn dp_carry(op: ArmDPOP, a: u32, b: u32, c: bool) -> bool {
    let ci: u32 = if c {
        1
    } else {
        0
    };
    match op {
        ArmDPOP::SUB | ArmDPOP::CMP => add3carry(a, comp32(b), 1),
        ArmDPOP::RSB => add3carry(b, comp32(a), 1),
        ArmDPOP::ADD | ArmDPOP::CMN => add3carry(a, b, 0),
        ArmDPOP::ADC => add3carry(a, b, ci),
        ArmDPOP::SBC => add3carry(a, comp32(b), ci),
        ArmDPOP::RSC => add3carry(b, comp32(a), ci),
        _ => false,
    }
}

/// The overflow flag an arithmetic data-processing operation produces:
/// the signed overflow of its 33-bit sum. Meaningless for the logical
/// operations, which leave V unchanged.
pub open spec fn dp_over(op: ArmDPOP, a: u32, b: u32, c: bool) -> bool {
    let ci: u32 = if c {
        1
    } else {
        0
    };
    match op {
        ArmDPOP::SUB | ArmDPOP::CMP => add3over(a, comp32(b), 1),
        ArmDPOP::RSB => add3over(b, comp32(a), 1),
        ArmDPOP::ADD | ArmDPOP::CMN => add3over(a, b, 0),
        ArmDPOP::ADC => add3over(a, b, ci),
        ArmDPOP::SBC => add3over(a, comp32(b), ci),
        ArmDPOP::RSC => add3over(b, comp32(a), ci),
        _ => false,
    }
}

/// Data processing: the operation applied to `Rn` and the shifted second
/// operand. Without the S bit only `Rd` changes. With the S bit and
/// `Rd == R15` the CPSR is replaced by the current mode's SPSR — an
/// exception return — failing fatally when that word holds no defined
/// mode. Otherwise N and Z reflect the result, the logical operations
/// take C from the shifter and leave V, and the arithmetic ones take C
/// and V from the 33-bit adder; a test operation discards the result.
pub open spec fn dp_spec(v: CpuView, inst: ArmInstruction) -> (CpuView, Result<(), CpuError>) {
    let c_in = psr_bits(v.cpsr).c;
    let oc = op2_of(inst, v.gpr, c_in);
    let op2v = oc.0;
    let cshft = oc.1;
    let a = v.gpr[inst.rn as int];
    let op = inst.dpop_f;
    let res = dp_value(op, a, op2v, c_in);
    if !inst.sflag {
        (CpuView { gpr: v.gpr.update(inst.rd as int, res), ..v }, Ok(()))
    } else if inst.rd == 15 {
        let sv = v.spsr[mode_ix(mode_of(v.cpsr))];
        if valid_mode_bits(sv) {
            let gpr2 = if dpop_is_test(op) {
                v.gpr
            } else {
                v.gpr.update(15, res)
            };
            (CpuView { cpsr: sv, gpr: gpr2, ..v }, Ok(()))
        } else {
            (v, Err(CpuError::IllegalCPUState))
        }
    } else {
        let n = res & 0x8000_0000u32 != 0;
        let z = res == 0;
        let w1 = with_flag(with_flag(v.cpsr, n, FLAG_N), z, FLAG_Z);
        let w2 = if dpop_is_logical(op) {
            with_flag(w1, cshft, FLAG_C)
        } else {
            with_flag(with_flag(w1, dp_carry(op, a, op2v, c_in), FLAG_C),
                dp_over(op, a, op2v, c_in), FLAG_V)
        };
        let gpr2 = if dpop_is_test(op) {
            v.gpr
        } else {
            v.gpr.update(inst.rd as int, res)
        };
        (CpuView { gpr: gpr2, cpsr: w2, ..v }, Ok(()))
    }
}

/// MRS: the CPSR — or the current mode's SPSR when requested — is read
/// into `Rd`; User mode has no SPSR and fails with `PrivilegedUserCode`.
pub open spec fn mrs_spec(v: CpuView, inst: ArmInstruction) -> (CpuView, Result<(), CpuError>) {
    if inst.spsr_f {
        if mode_of(v.cpsr) == Mode::User {
            (v, Err(CpuError::PrivilegedUserCode))
        } else {
            (
                CpuView {
                    gpr: v.gpr.update(inst.rd as int, v.spsr[mode_ix(mode_of(v.cpsr))]),
                    ..v
                },
                Ok(()),
            )
        }
    } else {
        (CpuView { gpr: v.gpr.update(inst.rd as int, v.cpsr), ..v }, Ok(()))
    }
}

/// MSR from a register, to a whole PSR. User mode may only write the
/// condition flags of the CPSR and has no SPSR. A privileged write to
/// the SPSR replaces its non-reserved bits. A privileged write to the
/// CPSR replaces its non-reserved bits and then performs the mode change
/// protocol into the written mode; an undefined mode pattern is the
/// fatal `IllegalCPUState` and changes nothing.
pub open spec fn msr_reg_spec(v: CpuView, inst: ArmInstruction) -> (CpuView, Result<
    (),
    CpuError,
>) {
    let rm_v = v.gpr[inst.rm as int];
    if mode_of(v.cpsr) == Mode::User {
        if inst.spsr_f {
            (v, Err(CpuError::PrivilegedUserCode))
        } else {
            (CpuView { cpsr: masked_write(v.cpsr, rm_v, COND_MASK), ..v }, Ok(()))
        }
    } else if inst.spsr_f {
        let ix = mode_ix(mode_of(v.cpsr));
        (
            CpuView {
                spsr: v.spsr.update(ix, masked_write(v.spsr[ix], rm_v, NON_RESERVED_MASK)),
                ..v
            },
            Ok(()),
        )
    } else {
        let w2 = masked_write(v.cpsr, rm_v, NON_RESERVED_MASK);
        if valid_mode_bits(w2) {
            (
                change_mode_spec(CpuView { cpsr: w2, ..v }, mode_of(v.cpsr), mode_of(w2), None),
                Ok(()),
            )
        } else {
            (v, Err(CpuError::IllegalCPUState))
        }
    }
}

/// MSR of the flags only: the four condition flags of the CPSR — or of
/// the current mode's SPSR when requested — take the top bits of the
/// operand; all control and reserved bits are preserved. User mode has
/// no SPSR.
pub open spec fn msr_flags_spec(v: CpuView, inst: ArmInstruction) -> (CpuView, Result<
    (),
    CpuError,
>) {
    let opv = msr_operand_of(inst, v.gpr);
    if inst.spsr_f {
        if mode_of(v.cpsr) == Mode::User {
            (v, Err(CpuError::PrivilegedUserCode))
        } else {
            let ix = mode_ix(mode_of(v.cpsr));
            (
                CpuView { spsr: v.spsr.update(ix, masked_write(v.spsr[ix], opv, COND_MASK)), ..v },
                Ok(()),
            )
        }
    } else {
        (CpuView { cpsr: masked_write(v.cpsr, opv, COND_MASK), ..v }, Ok(()))
    }
}

/// One instruction through the executor: the reserved condition code is
/// an ill-formed instruction, a failing condition changes nothing, and a
/// passing one dispatches on the opcode class.
pub open spec fn exec_arm_spec(v: CpuView, inst: ArmInstruction) -> (CpuView, Result<
    (),
    CpuError,
>) {
    if inst.cond == Condition::NV {
        (v, Err(CpuError::InvalidInstruction))
    } else if !cond_eval(v.cpsr, inst.cond) {
        (v, Ok(()))
    } else {
        match inst.op {
            ArmOpcode::BX => (bx_spec(v, inst), Ok(())),
            ArmOpcode::B_BL => (b_bl_spec(v, inst), Ok(())),
            ArmOpcode::MUL_MLA => (mul_spec(v, inst), Ok(())),
            ArmOpcode::MULL_MLAL => (mull_spec(v, inst), Ok(())),
            ArmOpcode::DataProcessing => dp_spec(v, inst),
            ArmOpcode::MRS => mrs_spec(v, inst),
            ArmOpcode::MSR_Reg => msr_reg_spec(v, inst),
            ArmOpcode::MSR_Flags => msr_flags_spec(v, inst),
            ArmOpcode::LDR_STR => (v, Ok(())),
        }
    }
}

/// One full pipeline-step execute phase: the decoded instruction runs;
/// an ill-formed one raises the `UndefinedInstruction` exception instead
/// of failing; any other error leaves the state unchanged and propagates.
/// On success the supplied decode of the fetch slot moves into the
/// decode slot — unless the program counter changed, which flushes the
/// pipeline.
pub open spec fn step_spec(v: CpuView, next: ArmInstruction) -> (CpuView, Result<(), CpuError>) {
    let vr = exec_arm_spec(v, v.decoded);
    let v1 = vr.0;
    let r = vr.1;
    if r == Err::<(), CpuError>(CpuError::InvalidInstruction) {
        (exception_spec(v1, Exception::UndefinedInstruction), Ok(()))
    } else if r is Err {
        (v1, r)
    } else if v1.gpr[15] == v.gpr[15] {
        (CpuView { decoded: next, ..v1 }, Ok(()))
    } else {
        (CpuView { decoded: nop_inst(), fetched: NOP_RAW, ..v1 }, Ok(()))
    }
}

impl Arm7Tdmi {
    /// Replace the non-reserved bits of a status word with those of
    /// `val`, preserving the reserved bits.
    fn override_psr(psr: u32, val: u32) -> (r: u32)
        ensures
            r == masked_write(psr, val, NON_RESERVED_MASK),
    {
        write_masked(psr, val, NON_RESERVED_MASK)
    }

    /// Replace the condition flags of a status word with the top bits of
    /// `val`, preserving everything else. Bits 27..24 are reserved and
    /// stay zero.
    fn override_psr_flags(psr: u32, val: u32) -> (r: u32)
        ensures
            r == masked_write(psr, val, COND_MASK),
    {
        write_masked(psr, val, COND_MASK)
    }

    fn execute_bx(&mut self, inst: ArmInstruction)
        requires
            cpu_wf(old(self)@),
            inst_wf(inst),
        ensures
            final(self)@ == bx_spec(old(self)@, inst),
            cpu_wf(final(self)@),
    {
        self.clear_pipeline();
        let addr = self.gpr[inst.Rm()];
        let thumb = addr & 1 != 0;
        let s = if thumb {
            State::THUMB
        } else {
            State::ARM
        };
        proof {
            lemma_psr_masked_write(self@.cpsr, if thumb {
                FLAG_T
            } else {
                0u32
            }, FLAG_T);
        }
        self.cpsr.set_state(s);
        self.gpr[PC] = addr & 0xFFFF_FFFEu32;
        proof {
            assert(self@.gpr =~= bx_spec(old(self)@, inst).gpr);
            assert(self@ =~= bx_spec(old(self)@, inst));
        }
    }

    fn execute_b_bl(&mut self, inst: ArmInstruction)
        requires
            cpu_wf(old(self)@),
            inst_wf(inst),
        ensures
            final(self)@ == b_bl_spec(old(self)@, inst),
            cpu_wf(final(self)@),
    {
        self.clear_pipeline();
        if inst.is_branch_with_link() {
            let ra = wrapping_sub32(self.gpr[PC], 4);
            self.gpr[LR] = ra;
        }
        let target = wrapping_add32(self.gpr[PC], inst.branch_offset());
        self.gpr[PC] = target;
        proof {
            assert(self@.gpr =~= b_bl_spec(old(self)@, inst).gpr);
            assert(self@ =~= b_bl_spec(old(self)@, inst));
        }
    }

    fn execute_mul_mla(&mut self, inst: ArmInstruction)
        requires
            cpu_wf(old(self)@),
            inst_wf(inst),
        ensures
            final(self)@ == mul_spec(old(self)@, inst),
            cpu_wf(final(self)@),
    {
        if inst.is_setting_flags() {
            self.execute_mul_mla_s(inst);
            return ;
        }
        let res = mul32(self.gpr[inst.Rs()], self.gpr[inst.Rm()], inst.is_accumulating(),
            self.gpr[inst.Rd()]);
        self.gpr[inst.Rn()] = res;
        proof {
            assert(self@.gpr =~= mul_spec(old(self)@, inst).gpr);
            assert(self@ =~= mul_spec(old(self)@, inst));
        }
    }

    fn execute_mul_mla_s(&mut self, inst: ArmInstruction)
        requires
            cpu_wf(old(self)@),
            inst_wf(inst),
            inst.sflag,
        ensures
            final(self)@ == mul_spec(old(self)@, inst),
            cpu_wf(final(self)@),
    {
        let res = mul32(self.gpr[inst.Rs()], self.gpr[inst.Rm()], inst.is_accumulating(),
            self.gpr[inst.Rd()]);
        self.gpr[inst.Rn()] = res;
        proof {
            let w0 = self@.cpsr;
            let w1 = with_flag(w0, res & 0x8000_0000u32 != 0, FLAG_N);
            let w2 = with_flag(w1, res == 0, FLAG_Z);
            lemma_psr_masked_write(w0, if res & 0x8000_0000u32 != 0 {
                FLAG_N
            } else {
                0u32
            }, FLAG_N);
            lemma_psr_masked_write(w1, if res == 0 {
                FLAG_Z
            } else {
                0u32
            }, FLAG_Z);
            lemma_psr_masked_write(w2, 0u32, FLAG_C);
        }
        self.cpsr.set_N(res & 0x8000_0000u32 != 0);
        self.cpsr.set_Z(res == 0);
        self.cpsr.set_C(false);
        proof {
            assert(self@.gpr =~= mul_spec(old(self)@, inst).gpr);
            assert(self@ =~= mul_spec(old(self)@, inst));
        }
    }

    fn execute_mull_mlal(&mut self, inst: ArmInstruction)
        requires
            cpu_wf(old(self)@),
            inst_wf(inst),
        ensures
            final(self)@ == mull_spec(old(self)@, inst),
            cpu_wf(final(self)@),
    {
        let r64 = mul64(inst.is_signed(), self.gpr[inst.Rs()], self.gpr[inst.Rm()],
            inst.is_accumulating(), self.gpr[inst.Rn()], self.gpr[inst.Rd()]);
        let hi = (r64 / WORD_MODULUS) as u32;
        let lo = (r64 % WORD_MODULUS) as u32;
        self.gpr[inst.Rn()] = hi;
        self.gpr[inst.Rd()] = lo;
        if inst.is_setting_flags() {
            proof {
                let w0 = self@.cpsr;
                let n = r64 >= 0x8000_0000_0000_0000u64;
                let w1 = with_flag(w0, n, FLAG_N);
                let w2 = with_flag(w1, r64 == 0, FLAG_Z);
                let w3 = with_flag(w2, false, FLAG_C);
                lemma_psr_masked_write(w0, if n {
                    FLAG_N
                } else {
                    0u32
                }, FLAG_N);
                lemma_psr_masked_write(w1, if r64 == 0 {
                    FLAG_Z
                } else {
                    0u32
                }, FLAG_Z);
                lemma_psr_masked_write(w2, 0u32, FLAG_C);
                lemma_psr_masked_write(w3, 0u32, FLAG_V);
            }
            self.cpsr.set_N(r64 >= 0x8000_0000_0000_0000u64);
            self.cpsr.set_Z(r64 == 0);
            self.cpsr.set_C(false);
            self.cpsr.set_V(false);
        }
        proof {
            assert(self@.gpr =~= mull_spec(old(self)@, inst).gpr);
            assert(self@ =~= mull_spec(old(self)@, inst));
        }
    }

    fn execute_data_processing(&mut self, inst: ArmInstruction) -> (r: Result<(), CpuError>)
        requires
            cpu_wf(old(self)@),
            inst_wf(inst),
            inst.op == ArmOpcode::DataProcessing,
        ensures
            final(self)@ == dp_spec(old(self)@, inst).0,
            r == dp_spec(old(self)@, inst).1,
            cpu_wf(final(self)@),
    {
        if inst.is_setting_flags() {
            return self.execute_data_processing_s(inst);
        }
        let c_in = self.cpsr.C();
        let ci: u32 = if c_in {
            1
        } else {
            0
        };
        let op2v = inst.calculate_shft_field(&self.gpr, c_in);
        let a = self.gpr[inst.Rn()];
        let res: u32 = match inst.dpop() {
            ArmDPOP::AND => a & op2v,
            ArmDPOP::EOR => a ^ op2v,
            ArmDPOP::SUB => sub_carry_overflow(a, op2v, 1).0,
            ArmDPOP::RSB => sub_carry_overflow(op2v, a, 1).0,
            ArmDPOP::ADD => add_carry_overflow(a, op2v, 0).0,
            ArmDPOP::ADC => add_carry_overflow(a, op2v, ci).0,
            ArmDPOP::SBC => sub_carry_overflow(a, op2v, ci).0,
            ArmDPOP::RSC => sub_carry_overflow(op2v, a, ci).0,
            ArmDPOP::TST | ArmDPOP::TEQ | ArmDPOP::CMP | ArmDPOP::CMN => {
                proof {
                    assert(false);
                }
                0
            },
            ArmDPOP::ORR => a | op2v,
            ArmDPOP::MOV => op2v,
            ArmDPOP::BIC => a & (0xFFFF_FFFFu32 - op2v),
            ArmDPOP::MVN => 0xFFFF_FFFFu32 - op2v,
        };
        self.gpr[inst.Rd()] = res;
        proof {
            assert(self@.gpr =~= dp_spec(old(self)@, inst).0.gpr);
            assert(self@ =~= dp_spec(old(self)@, inst).0);
        }
        Ok(())
    }

    #[verifier::rlimit(60)]
    fn execute_data_processing_s(&mut self, inst: ArmInstruction) -> (r: Result<(), CpuError>)
        requires
            cpu_wf(old(self)@),
            inst_wf(inst),
            inst.op == ArmOpcode::DataProcessing,
            inst.sflag,
        ensures
            final(self)@ == dp_spec(old(self)@, inst).0,
            r == dp_spec(old(self)@, inst).1,
            cpu_wf(final(self)@),
    {
        let c_in = self.cpsr.C();
        let ci: u32 = if c_in {
            1
        } else {
            0
        };
        let oc = inst.calculate_shft_field_with_carry(&self.gpr, c_in);
        let op2v = oc.0;
        let cshft = oc.1;
        let a = self.gpr[inst.Rn()];
        let op = inst.dpop();
        let res: u32;
        let mut cf = false;
        let mut vf = false;
        match op {
            ArmDPOP::AND | ArmDPOP::TST => {
                res = a & op2v;
            },
            ArmDPOP::EOR | ArmDPOP::TEQ => {
                res = a ^ op2v;
            },
            ArmDPOP::SUB | ArmDPOP::CMP => {
                let t = sub_carry_overflow(a, op2v, 1);
                res = t.0;
                cf = t.1;
                vf = t.2;
            },
            ArmDPOP::RSB => {
                let t = sub_carry_overflow(op2v, a, 1);
                res = t.0;
                cf = t.1;
                vf = t.2;
            },
            ArmDPOP::ADD | ArmDPOP::CMN => {
                let t = add_carry_overflow(a, op2v, 0);
                res = t.0;
                cf = t.1;
                vf = t.2;
            },
            ArmDPOP::ADC => {
                let t = add_carry_overflow(a, op2v, ci);
                res = t.0;
                cf = t.1;
                vf = t.2;
            },
            ArmDPOP::SBC => {
                let t = sub_carry_overflow(a, op2v, ci);
                res = t.0;
                cf = t.1;
                vf = t.2;
            },
            ArmDPOP::RSC => {
                let t = sub_carry_overflow(op2v, a, ci);
                res = t.0;
                cf = t.1;
                vf = t.2;
            },
            ArmDPOP::ORR => {
                res = a | op2v;
            },
            ArmDPOP::MOV => {
                res = op2v;
            },
            ArmDPOP::BIC => {
                res = a & (0xFFFF_FFFFu32 - op2v);
            },
            ArmDPOP::MVN => {
                res = 0xFFFF_FFFFu32 - op2v;
            },
        }
        if inst.Rd() == PC {
            // Exception return: the CPSR is replaced by the current
            // mode's SPSR, which must hold a defined mode.
            let m = self.cpsr.mode();
            let sv = self.spsr[m.bank_index()];
            let svr = CPSR(sv);
            if !svr.mode_is_valid() {
                return Err(CpuError::IllegalCPUState);
            }
            self.cpsr = svr;
            if !op.is_test() {
                self.gpr[inst.Rd()] = res;
            }
            proof {
                assert(self@.gpr =~= dp_spec(old(self)@, inst).0.gpr);
                assert(self@ =~= dp_spec(old(self)@, inst).0);
            }
            return Ok(());
        }
        proof {
            let w0 = self@.cpsr;
            let n = res & 0x8000_0000u32 != 0;
            let w1 = with_flag(w0, n, FLAG_N);
            let w2 = with_flag(w1, res == 0, FLAG_Z);
            lemma_psr_masked_write(w0, if n {
                FLAG_N
            } else {
                0u32
            }, FLAG_N);
            lemma_psr_masked_write(w1, if res == 0 {
                FLAG_Z
            } else {
                0u32
            }, FLAG_Z);
            lemma_psr_masked_write(w2, if dpop_is_logical(inst.dpop_f) {
                if op2_of(inst, old(self)@.gpr, psr_bits(old(self)@.cpsr).c).1 {
                    FLAG_C
                } else {
                    0u32
                }
            } else {
                if dp_carry(inst.dpop_f, old(self)@.gpr[inst.rn as int],
                    op2_of(inst, old(self)@.gpr, psr_bits(old(self)@.cpsr).c).0,
                    psr_bits(old(self)@.cpsr).c) {
                    FLAG_C
                } else {
                    0u32
                }
            }, FLAG_C);
            let w3 = with_flag(w2, if dpop_is_logical(inst.dpop_f) {
                op2_of(inst, old(self)@.gpr, psr_bits(old(self)@.cpsr).c).1
            } else {
                dp_carry(inst.dpop_f, old(self)@.gpr[inst.rn as int],
                    op2_of(inst, old(self)@.gpr, psr_bits(old(self)@.cpsr).c).0,
                    psr_bits(old(self)@.cpsr).c)
            }, FLAG_C);
            lemma_psr_masked_write(w3, if dp_over(inst.dpop_f, old(self)@.gpr[inst.rn as int],
                op2_of(inst, old(self)@.gpr, psr_bits(old(self)@.cpsr).c).0,
                psr_bits(old(self)@.cpsr).c) {
                FLAG_V
            } else {
                0u32
            }, FLAG_V);
        }
        self.cpsr.set_N(res & 0x8000_0000u32 != 0);
        self.cpsr.set_Z(res == 0);
        if op.is_logical() {
            self.cpsr.set_C(cshft);
        } else {
            self.cpsr.set_C(cf);
            self.cpsr.set_V(vf);
        }
        if !op.is_test() {
            self.gpr[inst.Rd()] = res;
        }
        proof {
            assert(self@.gpr =~= dp_spec(old(self)@, inst).0.gpr);
            assert(self@ =~= dp_spec(old(self)@, inst).0);
        }
        Ok(())
    }

    fn execute_mrs(&mut self, inst: ArmInstruction) -> (r: Result<(), CpuError>)
        requires
            cpu_wf(old(self)@),
            inst_wf(inst),
        ensures
            final(self)@ == mrs_spec(old(self)@, inst).0,
            r == mrs_spec(old(self)@, inst).1,
            cpu_wf(final(self)@),
    {
        if inst.is_accessing_spsr() {
            let m = self.cpsr.mode();
            if m == Mode::User {
                return Err(CpuError::PrivilegedUserCode);
            }
            let sv = self.spsr[m.bank_index()];
            self.gpr[inst.Rd()] = sv;
        } else {
            let w = self.cpsr.0;
            self.gpr[inst.Rd()] = w;
        }
        proof {
            assert(self@.gpr =~= mrs_spec(old(self)@, inst).0.gpr);
            assert(self@ =~= mrs_spec(old(self)@, inst).0);
        }
        Ok(())
    }

    fn execute_msr_reg(&mut self, inst: ArmInstruction) -> (r: Result<(), CpuError>)
        requires
            cpu_wf(old(self)@),
            inst_wf(inst),
        ensures
            final(self)@ == msr_reg_spec(old(self)@, inst).0,
            r == msr_reg_spec(old(self)@, inst).1,
            cpu_wf(final(self)@),
    {
        let rm_v = self.gpr[inst.Rm()];
        let m_old = self.cpsr.mode();
        if m_old == Mode::User {
            // User mode can only set the flag bits of CPSR.
            if inst.is_accessing_spsr() {
                return Err(CpuError::PrivilegedUserCode);
            }
            proof {
                lemma_psr_masked_write(self@.cpsr, rm_v, COND_MASK);
            }
            self.cpsr.0 = Arm7Tdmi::override_psr_flags(self.cpsr.0, rm_v);
            proof {
                assert(self@ =~= msr_reg_spec(old(self)@, inst).0);
            }
            return Ok(());
        }
        if inst.is_accessing_spsr() {
            let ix = m_old.bank_index();
            let nv = Arm7Tdmi::override_psr(self.spsr[ix], rm_v);
            proof {
                lemma_psr_masked_write(old(self)@.spsr[mode_ix(m_old) as int], rm_v,
                    NON_RESERVED_MASK);
            }
            self.spsr[ix] = nv;
            proof {
                assert(self@.spsr =~= msr_reg_spec(old(self)@, inst).0.spsr);
                assert(self@ =~= msr_reg_spec(old(self)@, inst).0);
            }
            return Ok(());
        }
        let w2 = Arm7Tdmi::override_psr(self.cpsr.0, rm_v);
        let c2 = CPSR(w2);
        if !c2.mode_is_valid() {
            return Err(CpuError::IllegalCPUState);
        }
        proof {
            lemma_psr_masked_write(old(self)@.cpsr, rm_v, NON_RESERVED_MASK);
        }
        let m_new = c2.mode();
        self.cpsr = c2;
        self.change_mode_from(m_old, m_new, None);
        proof {
            assert(self@ =~= msr_reg_spec(old(self)@, inst).0);
        }
        Ok(())
    }

    fn execute_msr_flags(&mut self, inst: ArmInstruction) -> (r: Result<(), CpuError>)
        requires
            cpu_wf(old(self)@),
            inst_wf(inst),
        ensures
            final(self)@ == msr_flags_spec(old(self)@, inst).0,
            r == msr_flags_spec(old(self)@, inst).1,
            cpu_wf(final(self)@),
    {
        let opv = inst.calculate_shsr_field(&self.gpr);
        if inst.is_accessing_spsr() {
            let m = self.cpsr.mode();
            if m == Mode::User {
                return Err(CpuError::PrivilegedUserCode);
            }
            let ix = m.bank_index();
            let nv = Arm7Tdmi::override_psr_flags(self.spsr[ix], opv);
            proof {
                lemma_psr_masked_write(old(self)@.spsr[mode_ix(m) as int], opv, COND_MASK);
            }
            self.spsr[ix] = nv;
            proof {
                assert(self@.spsr =~= msr_flags_spec(old(self)@, inst).0.spsr);
                assert(self@ =~= msr_flags_spec(old(self)@, inst).0);
            }
        } else {
            proof {
                lemma_psr_masked_write(self@.cpsr, opv, COND_MASK);
            }
            self.cpsr.0 = Arm7Tdmi::override_psr_flags(self.cpsr.0, opv);
            proof {
                assert(self@ =~= msr_flags_spec(old(self)@, inst).0);
            }
        }
        Ok(())
    }

    /// Immediately executes a single ARM state instruction: the condition
    /// gate, then the opcode-class dispatch.
    pub fn execute_arm_state(&mut self, inst: ArmInstruction) -> (r: Result<(), CpuError>)
        requires
            cpu_wf(old(self)@),
            inst_executable(inst),
        ensures
            final(self)@ == exec_arm_spec(old(self)@, inst).0,
            r == exec_arm_spec(old(self)@, inst).1,
            cpu_wf(final(self)@),
    {
        let do_exec = match inst.condition().check(&self.cpsr) {
            Ok(b) => b,
            Err(e) => {
                return Err(e);
            },
        };
        if !do_exec {
            return Ok(());
        }
        match inst.opcode() {
            ArmOpcode::BX => {
                self.execute_bx(inst);
                Ok(())
            },
            ArmOpcode::B_BL => {
                self.execute_b_bl(inst);
                Ok(())
            },
            ArmOpcode::MUL_MLA => {
                self.execute_mul_mla(inst);
                Ok(())
            },
            ArmOpcode::MULL_MLAL => {
                self.execute_mull_mlal(inst);
                Ok(())
            },
            ArmOpcode::DataProcessing => self.execute_data_processing(inst),
            ArmOpcode::MRS => self.execute_mrs(inst),
            ArmOpcode::MSR_Reg => self.execute_msr_reg(inst),
            ArmOpcode::MSR_Flags => self.execute_msr_flags(inst),
            ArmOpcode::LDR_STR => {
                proof {
                    assert(false);
                }
                Ok(())
            },
        }
    }

    /// The execute phase of a pipeline step: run the decoded slot, let
    /// an ill-formed instruction raise the `UndefinedInstruction`
    /// exception, propagate any other error untouched, and otherwise
    /// shift `next_decoded` — the external decode of the fetch slot —
    /// into the decode slot, flushing instead when the program counter
    /// changed. The host then reads [`Arm7Tdmi::fetch_address`] and
    /// completes the step with [`Arm7Tdmi::complete_fetch`].
    pub fn step_execute(&mut self, next_decoded: ArmInstruction) -> (r: Result<(), CpuError>)
        requires
            cpu_wf(old(self)@),
            inst_executable(old(self)@.decoded),
            inst_wf(next_decoded),
        ensures
            final(self)@ == step_spec(old(self)@, next_decoded).0,
            r == step_spec(old(self)@, next_decoded).1,
            cpu_wf(final(self)@),
    {
        let inst = self.decoded_inst();
        let pc_before = self.gpr[PC];
        match self.execute_arm_state(inst) {
            Ok(()) => {},
            Err(CpuError::InvalidInstruction) => {
                self.exception(Exception::UndefinedInstruction);
                return Ok(());
            },
            Err(e) => {
                return Err(e);
            },
        }
        if self.gpr[PC] == pc_before {
            self.decoded = next_decoded;
            proof {
                assert(self@ =~= step_spec(old(self)@, next_decoded).0);
            }
        } else {
            self.clear_pipeline();
            proof {
                assert(self@ =~= step_spec(old(self)@, next_decoded).0);
            }
        }
        Ok(())
    }
}

} // verus!
