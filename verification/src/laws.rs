//! The laws of the CPU, stated over the functional specifications that
//! the executable operations are proved against: uniqueness of the mode
//! denoted by a valid status word, the banking guarantees of a mode
//! change and their round trip, what a failing condition leaves alone,
//! the PSR write/read round trip, and the flag rules of the ALU.

use vstd::prelude::*;
use crate::bits::{MODE_MASK, NON_RESERVED_MASK, masked_write, lemma_psr_masked_write};
use crate::psr::{
    Mode, psr_bits, with_flag, mode_bits_of, mode_ix, mode_of, valid_mode_bits,
    lemma_mode_bits_of_mode_of,
};
use crate::exception::CpuError;
use crate::instruction::{
    ArmInstruction, ArmOpcode, ArmDPOP, Condition, cond_eval, inst_wf, op2_of, dpop_is_logical,
};
use crate::alu::{add3val, add3over, sgn32};
use crate::cpu::{CpuView, cpu_wf, change_mode_spec};
use crate::execute::{exec_arm_spec, dp_spec, dp_value, dp_carry, dp_over, msr_reg_spec, mrs_spec};

verus! {

/// A valid status word denotes exactly one of the seven named modes:
/// one mode's pattern matches its mode bits, and no two modes share a
/// pattern. Every operation of the CPU keeps the CPSR valid, so this
/// holds of all reachable states.
pub proof fn lemma_cpsr_mode_unique(w: u32)
    requires
        valid_mode_bits(w),
    ensures
        mode_bits_of(mode_of(w)) == w & MODE_MASK,
        forall|m1: Mode, m2: Mode|
            mode_bits_of(m1) == w & MODE_MASK && mode_bits_of(m2) == w & MODE_MASK ==> m1 == m2,
{
    lemma_mode_bits_of_mode_of(w);
}

/// After a mode change, the visible R13 and R14 equal the incoming
/// mode's banks, and the outgoing mode's banks hold the pre-change
/// visible values. The R14 clause needs the change not to be an
/// exception entry into the very mode it leaves, where the protocol
/// overwrites the just-saved slot with the return address.
pub proof fn lemma_change_mode_banks(v: CpuView, old_m: Mode, new_m: Mode, ret: Option<u32>)
    requires
        cpu_wf(v),
        ret is Some ==> old_m != new_m,
    ensures
        change_mode_spec(v, old_m, new_m, ret).gpr[13] == change_mode_spec(v, old_m, new_m,
            ret).r13_bank[mode_ix(new_m)],
        change_mode_spec(v, old_m, new_m, ret).gpr[14] == change_mode_spec(v, old_m, new_m,
            ret).r14_bank[mode_ix(new_m)],
        change_mode_spec(v, old_m, new_m, ret).r13_bank[mode_ix(old_m)] == v.gpr[13],
        change_mode_spec(v, old_m, new_m, ret).r14_bank[mode_ix(old_m)] == v.gpr[14],
{
}

/// A mode change A to B and back to A restores the visible R13, R14,
/// and, across the FIQ boundary, R8..R12.
pub proof fn lemma_mode_round_trip(v: CpuView, a: Mode, b: Mode)
    requires
        cpu_wf(v),
    ensures
        change_mode_spec(change_mode_spec(v, a, b, None), b, a, None).gpr[13] == v.gpr[13],
        change_mode_spec(change_mode_spec(v, a, b, None), b, a, None).gpr[14] == v.gpr[14],
        forall|i: int| 8 <= i < 13 ==> change_mode_spec(change_mode_spec(v, a, b, None), b, a,
            None).gpr[i] == v.gpr[i],
{
}

/// An instruction whose condition fails changes no architectural state
/// and succeeds.
pub proof fn lemma_failed_condition_no_change(v: CpuView, inst: ArmInstruction)
    requires
        inst.cond != Condition::NV,
        !cond_eval(v.cpsr, inst.cond),
    ensures
        exec_arm_spec(v, inst).0 == v,
        exec_arm_spec(v, inst).1 == Ok::<(), CpuError>(()),
{
}

/// An MSR writing the CPSR followed by an MRS of the CPSR reads back the
/// non-reserved bits of the written value.
pub proof fn lemma_msr_mrs_round_trip(v: CpuView, w_inst: ArmInstruction, r_inst: ArmInstruction)
    requires
        cpu_wf(v),
        inst_wf(w_inst),
        inst_wf(r_inst),
        w_inst.op == ArmOpcode::MSR_Reg,
        !w_inst.spsr_f,
        r_inst.op == ArmOpcode::MRS,
        !r_inst.spsr_f,
        mode_of(v.cpsr) != Mode::User,
        valid_mode_bits(masked_write(v.cpsr, v.gpr[w_inst.rm as int], NON_RESERVED_MASK)),
    ensures
        msr_reg_spec(v, w_inst).1 == Ok::<(), CpuError>(()),
        mrs_spec(msr_reg_spec(v, w_inst).0, r_inst).0.gpr[r_inst.rd as int] & NON_RESERVED_MASK
            == v.gpr[w_inst.rm as int] & NON_RESERVED_MASK,
{
    let rm_v = v.gpr[w_inst.rm as int];
    let w2 = masked_write(v.cpsr, rm_v, NON_RESERVED_MASK);
    lemma_psr_masked_write(v.cpsr, rm_v, NON_RESERVED_MASK);
    lemma_mode_bits_of_mode_of(w2);
    lemma_psr_masked_write(w2, mode_bits_of(mode_of(w2)), MODE_MASK);
    assert(change_mode_spec(CpuView { cpsr: w2, ..v }, mode_of(v.cpsr), mode_of(w2), None).cpsr
        == w2);
}

/// ADD sets V exactly when `(Rn ^ result) & (op2 ^ result)` has its top
/// bit set: the operands agree in sign and the result disagrees.
pub proof fn lemma_add_sets_v(a: u32, b: u32, c: bool)
    ensures
        dp_over(ArmDPOP::ADD, a, b, c) == (((a ^ dp_value(ArmDPOP::ADD, a, b, c)) & (b
            ^ dp_value(ArmDPOP::ADD, a, b, c)) & 0x8000_0000u32) != 0),
{
}

/// The overflow flag of the 33-bit adder is exactly a signed overflow:
/// the signed reading of the sum leaves the 32-bit signed range.
pub proof fn lemma_add_overflow_signed(a: u32, b: u32, ci: u32)
    requires
        ci <= 1,
    ensures
        add3over(a, b, ci) == (sgn32(a) + sgn32(b) + ci < -0x8000_0000 || sgn32(a) + sgn32(b)
            + ci >= 0x8000_0000),
{
    let r = add3val(a, b, ci);
    let sa = a >= 0x8000_0000u32;
    let sb = b >= 0x8000_0000u32;
    let sr = r >= 0x8000_0000u32;
    assert(((a ^ r) & (b ^ r) & 0x8000_0000u32 != 0) == ((sa == sb) && (sr != sa)))
        by (bit_vector)
        requires
            sa == (a >= 0x8000_0000u32),
            sb == (b >= 0x8000_0000u32),
            sr == (r >= 0x8000_0000u32),
    ;
    assert(r == (a + b + ci) % 0x1_0000_0000);
    if a + b + ci >= 0x1_0000_0000 {
        assert(r == a + b + ci - 0x1_0000_0000);
    } else {
        assert(r == a + b + ci);
    }
}

/// SUB sets C exactly when no borrow occurs: when `Rn >= op2` as
/// unsigned words.
pub proof fn lemma_sub_sets_c(a: u32, b: u32, c: bool)
    ensures
        dp_carry(ArmDPOP::SUB, a, b, c) == (a >= b),
{
    crate::alu::lemma_sub_no_borrow(a, b);
}

/// A logical data-processing operation never modifies V: with the S bit
/// and a destination other than R15, the V flag after the operation
/// equals the V flag before; and without the S bit the whole status word
/// is untouched.
pub proof fn lemma_logical_preserves_v(v: CpuView, inst: ArmInstruction)
    requires
        cpu_wf(v),
        inst.op == ArmOpcode::DataProcessing,
        dpop_is_logical(inst.dpop_f),
    ensures
        inst.sflag && inst.rd != 15 ==> psr_bits(dp_spec(v, inst).0.cpsr).v == psr_bits(
            v.cpsr).v,
        !inst.sflag ==> dp_spec(v, inst).0.cpsr == v.cpsr,
{
    if inst.sflag && inst.rd != 15 {
        let c_in = psr_bits(v.cpsr).c;
        let oc = op2_of(inst, v.gpr, c_in);
        let res = dp_value(inst.dpop_f, v.gpr[inst.rn as int], oc.0, c_in);
        let n = res & 0x8000_0000u32 != 0;
        let w1 = with_flag(v.cpsr, n, crate::bits::FLAG_N);
        let w2 = with_flag(w1, res == 0, crate::bits::FLAG_Z);
        lemma_psr_masked_write(v.cpsr, if n {
            crate::bits::FLAG_N
        } else {
            0u32
        }, crate::bits::FLAG_N);
        lemma_psr_masked_write(w1, if res == 0 {
            crate::bits::FLAG_Z
        } else {
            0u32
        }, crate::bits::FLAG_Z);
        lemma_psr_masked_write(w2, if oc.1 {
            crate::bits::FLAG_C
        } else {
            0u32
        }, crate::bits::FLAG_C);
    }
}

} // verus!
