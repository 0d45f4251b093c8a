//! The decoded-instruction value the executor consumes, produced by an
//! external decoder: condition code, opcode class, register fields,
//! predicates, the data-processing operation, and the second-operand
//! shift field with its barrel shifter.

use vstd::prelude::*;
use crate::psr::{CPSR, psr_bits};
use crate::exception::CpuError;

verus! {

/// The sixteen ARM condition codes.
#[derive(Debug, PartialEq, Eq, Structural, Clone, Copy)]
pub enum Condition {
    /// Equal: Z set.
    EQ,
    /// Not equal: Z clear.
    NE,
    /// Carry set / unsigned higher or same.
    CS,
    /// Carry clear / unsigned lower.
    CC,
    /// Minus: N set.
    MI,
    /// Plus: N clear.
    PL,
    /// Overflow set.
    VS,
    /// Overflow clear.
    VC,
    /// Unsigned higher: C set and Z clear.
    HI,
    /// Unsigned lower or same: C clear or Z set.
    LS,
    /// Signed greater or equal: N equals V.
    GE,
    /// Signed less than: N differs from V.
    LT,
    /// Signed greater than: Z clear and N equals V.
    GT,
    /// Signed less or equal: Z set or N differs from V.
    LE,
    /// Always.
    AL,
    /// Reserved; executing it is an undefined instruction.
    NV,
}

/// Whether a defined condition code passes against a status word's flags.
/// The reserved code NV never passes; the executor rejects it before
/// evaluation.
pub open spec fn cond_eval(w: u32, c: Condition) -> bool {
    let b = psr_bits(w);
    match c {
        Condition::EQ => b.z,
        Condition::NE => !b.z,
        Condition::CS => b.c,
        Condition::CC => !b.c,
        Condition::MI => b.n,
        Condition::PL => !b.n,
        Condition::VS => b.v,
        Condition::VC => !b.v,
        Condition::HI => b.c && !b.z,
        Condition::LS => !b.c || b.z,
        Condition::GE => b.n == b.v,
        Condition::LT => b.n != b.v,
        Condition::GT => !b.z && b.n == b.v,
        Condition::LE => b.z || b.n != b.v,
        Condition::AL => true,
        Condition::NV => false,
    }
}

impl Condition {
    /// Evaluate this condition against the given status register.
    /// The reserved code NV is an ill-formed instruction.
    pub fn check(self, cpsr: &CPSR) -> (r: Result<bool, CpuError>)
        ensures
            self != Condition::NV ==> r == Ok::<bool, CpuError>(cond_eval(cpsr.0, self)),
            self == Condition::NV ==> r == Err::<bool, CpuError>(CpuError::InvalidInstruction),
    {
        match self {
            Condition::EQ => Ok(cpsr.Z()),
            Condition::NE => Ok(!cpsr.Z()),
            Condition::CS => Ok(cpsr.C()),
            Condition::CC => Ok(!cpsr.C()),
            Condition::MI => Ok(cpsr.N()),
            Condition::PL => Ok(!cpsr.N()),
            Condition::VS => Ok(cpsr.V()),
            Condition::VC => Ok(!cpsr.V()),
            Condition::HI => Ok(cpsr.C() && !cpsr.Z()),
            Condition::LS => Ok(!cpsr.C() || cpsr.Z()),
            Condition::GE => Ok(cpsr.N() == cpsr.V()),
            Condition::LT => Ok(cpsr.N() != cpsr.V()),
            Condition::GT => Ok(!cpsr.Z() && cpsr.N() == cpsr.V()),
            Condition::LE => Ok(cpsr.Z() || cpsr.N() != cpsr.V()),
            Condition::AL => Ok(true),
            Condition::NV => Err(CpuError::InvalidInstruction),
        }
    }
}

/// The opcode classes of the ARM instruction set that the executor
/// dispatches on. `LDR_STR` is a boundary to the external memory bus.
#[allow(non_camel_case_types)]
#[derive(Debug, PartialEq, Eq, Structural, Clone, Copy)]
pub enum ArmOpcode {
    /// Branch and exchange instruction set.
    BX,
    /// Branch, optionally with link.
    B_BL,
    /// 32-bit multiply, optionally accumulating.
    MUL_MLA,
    /// 64-bit multiply, optionally accumulating.
    MULL_MLAL,
    /// Data processing with the sixteen ALU operations.
    DataProcessing,
    /// Read a status register into a general register.
    MRS,
    /// Write a general register to a whole status register.
    MSR_Reg,
    /// Write only the flag bits of a status register.
    MSR_Flags,
    /// Single data transfer; handled by the external memory bus.
    LDR_STR,
}

/// The sixteen data-processing operations.
#[derive(Debug, PartialEq, Eq, Structural, Clone, Copy)]
pub enum ArmDPOP {
    /// Bitwise AND.
    AND,
    /// Bitwise exclusive or.
    EOR,
    /// Subtract.
    SUB,
    /// Reverse subtract.
    RSB,
    /// Add.
    ADD,
    /// Add with carry.
    ADC,
    /// Subtract with carry.
    SBC,
    /// Reverse subtract with carry.
    RSC,
    /// AND, setting flags only.
    TST,
    /// Exclusive or, setting flags only.
    TEQ,
    /// Subtract, setting flags only.
    CMP,
    /// Add, setting flags only.
    CMN,
    /// Bitwise or.
    ORR,
    /// Move the second operand.
    MOV,
    /// Bit clear.
    BIC,
    /// Move the complemented second operand.
    MVN,
}

/// Whether a data-processing operation is a logical one, whose C flag
/// comes from the barrel shifter and whose V flag is untouched.
pub open spec fn dpop_is_logical(op: ArmDPOP) -> bool {
    match op {
        ArmDPOP::AND | ArmDPOP::EOR | ArmDPOP::TST | ArmDPOP::TEQ | ArmDPOP::ORR | ArmDPOP::MOV
            | ArmDPOP::BIC | ArmDPOP::MVN => true,
        _ => false,
    }
}

/// Whether a data-processing operation only tests, discarding its result.
pub open spec fn dpop_is_test(op: ArmDPOP) -> bool {
    match op {
        ArmDPOP::TST | ArmDPOP::TEQ | ArmDPOP::CMP | ArmDPOP::CMN => true,
        _ => false,
    }
}

impl ArmDPOP {
    /// Whether this operation is a logical one.
    pub fn is_logical(self) -> (r: bool)
        ensures
            r == dpop_is_logical(self),
    {
        match self {
            ArmDPOP::AND | ArmDPOP::EOR | ArmDPOP::TST | ArmDPOP::TEQ | ArmDPOP::ORR
                | ArmDPOP::MOV | ArmDPOP::BIC | ArmDPOP::MVN => true,
            _ => false,
        }
    }

    /// Whether this operation only tests, discarding its result.
    pub fn is_test(self) -> (r: bool)
        ensures
            r == dpop_is_test(self),
    {
        match self {
            ArmDPOP::TST | ArmDPOP::TEQ | ArmDPOP::CMP | ArmDPOP::CMN => true,
            _ => false,
        }
    }
}

/// The unshifted base of a second operand: an immediate or a register.
#[derive(Debug, PartialEq, Eq, Structural, Clone, Copy)]
pub enum Op2Base {
    /// A literal value extracted by the decoder.
    Immediate(u32),
    /// The index of the register holding the value.
    Register(usize),
}

/// The shift amount: a literal from the instruction word or the bottom
/// byte of a register.
#[derive(Debug, PartialEq, Eq, Structural, Clone, Copy)]
pub enum Op2Amount {
    /// A literal amount from the instruction word.
    Fixed(u32),
    /// The bottom byte of the register with this index.
    FromRegister(usize),
}

/// The four shift types; rotate right with an immediate amount of zero
/// encodes RRX, rotate right through carry by one.
#[derive(Debug, PartialEq, Eq, Structural, Clone, Copy)]
pub enum ShiftType {
    /// Logical shift left.
    LSL,
    /// Logical shift right.
    LSR,
    /// Arithmetic shift right.
    ASR,
    /// Rotate right.
    ROR,
}

/// The shift field of a data-processing or transfer instruction.
#[derive(Debug, PartialEq, Eq, Structural, Clone, Copy)]
pub struct Op2 {
    /// The unshifted base value.
    pub base: Op2Base,
    /// The shift type applied to the base.
    pub stype: ShiftType,
    /// The shift amount.
    pub amount: Op2Amount,
}

/// Logical shift left by `n` with carry-out: a shift by 32 leaves zero
/// with carry bit 0 of the input, a longer shift leaves zero and no carry.
pub open spec fn lsl_spec(v: u32, n: u32, c_in: bool) -> (u32, bool) {
    if n == 0 {
        (v, c_in)
    } else if n < 32 {
        (v << n, (v >> ((32 - n) as u32)) & 1 != 0)
    } else if n == 32 {
        (0u32, v & 1 != 0)
    } else {
        (0u32, false)
    }
}

/// Logical shift right by `n` with carry-out.
pub open spec fn lsr_spec(v: u32, n: u32, c_in: bool) -> (u32, bool) {
    if n == 0 {
        (v, c_in)
    } else if n < 32 {
        (v >> n, (v >> ((n - 1) as u32)) & 1 != 0)
    } else if n == 32 {
        (0u32, v & 0x8000_0000u32 != 0)
    } else {
        (0u32, false)
    }
}

/// Arithmetic shift right by `n` with carry-out: the sign bit fills the
/// vacated bits, and a shift of 32 or more fills the whole word with it.
pub open spec fn asr_spec(v: u32, n: u32, c_in: bool) -> (u32, bool) {
    let neg = v & 0x8000_0000u32 != 0;
    if n == 0 {
        (v, c_in)
    } else if n < 32 {
        (
            (v >> n) | (if neg {
                0xFFFF_FFFFu32 << ((32 - n) as u32)
            } else {
                0u32
            }),
            (v >> ((n - 1) as u32)) & 1 != 0,
        )
    } else {
        (
            if neg {
                0xFFFF_FFFFu32
            } else {
                0u32
            },
            neg,
        )
    }
}

/// Rotate right through carry by one.
pub open spec fn rrx_spec(v: u32, c_in: bool) -> (u32, bool) {
    (
        (v >> 1) | (if c_in {
            0x8000_0000u32
        } else {
            0u32
        }),
        v & 1 != 0,
    )
}

/// Rotate right by `n > 0` with carry-out; a rotation by a multiple of 32
/// leaves the value unchanged with carry bit 31.
pub open spec fn ror_spec(v: u32, n: u32, c_in: bool) -> (u32, bool) {
    let r = n % 32;
    if n == 0 {
        (v, c_in)
    } else if r == 0 {
        (v, v & 0x8000_0000u32 != 0)
    } else {
        ((v >> r) | (v << ((32 - r) as u32)), (v >> ((r - 1) as u32)) & 1 != 0)
    }
}

/// The barrel shifter: value and carry-out of shifting `v` by `n` with
/// type `ty`. `imm` says whether the amount came from the instruction
/// word, which gives an amount of zero its three special meanings: a
/// shift of 32 for LSR and ASR, and RRX for ROR.
pub open spec fn apply_shift_spec(ty: ShiftType, v: u32, n: u32, c_in: bool, imm: bool) -> (
    u32,
    bool,
) {
    match ty {
        ShiftType::LSL => lsl_spec(v, n, c_in),
        ShiftType::LSR => if imm && n == 0 {
            lsr_spec(v, 32, c_in)
        } else {
            lsr_spec(v, n, c_in)
        },
        ShiftType::ASR => if imm && n == 0 {
            asr_spec(v, 32, c_in)
        } else {
            asr_spec(v, n, c_in)
        },
        ShiftType::ROR => if imm && n == 0 {
            rrx_spec(v, c_in)
        } else {
            ror_spec(v, n, c_in)
        },
    }
}

/// An instruction decoded by the external decoder, ready to execute.
#[derive(Debug, PartialEq, Eq, Structural, Clone, Copy)]
pub struct ArmInstruction {
    /// The guarding condition code.
    pub cond: Condition,
    /// The opcode class dispatched on.
    pub op: ArmOpcode,
    /// First operand register field.
    pub rm: usize,
    /// Second operand register field.
    pub rn: usize,
    /// Destination register field.
    pub rd: usize,
    /// Shift amount register field.
    pub rs: usize,
    /// The S bit: update the condition flags.
    pub sflag: bool,
    /// Accumulate variant of a multiply.
    pub acc: bool,
    /// Signed variant of a long multiply.
    pub sign: bool,
    /// Branch with link.
    pub link: bool,
    /// PSR transfer targets the SPSR rather than the CPSR.
    pub spsr_f: bool,
    /// The data-processing operation.
    pub dpop_f: ArmDPOP,
    /// Branch displacement in bytes, sign-extended and pre-shifted by the
    /// decoder, as a two's-complement word added to R15 with wrap-around.
    pub boffset: u32,
    /// The second-operand shift field.
    pub op2: Op2,
}

/// Well-formedness of a decoded instruction: every register field indexes
/// one of the sixteen general registers, and a test operation carries the
/// S bit, as the decoder guarantees.
pub open spec fn inst_wf(inst: ArmInstruction) -> bool {
    &&& inst.rm < 16
    &&& inst.rn < 16
    &&& inst.rd < 16
    &&& inst.rs < 16
    &&& (match inst.op2.base {
        Op2Base::Register(i) => i < 16,
        Op2Base::Immediate(_) => true,
    })
    &&& (match inst.op2.amount {
        Op2Amount::FromRegister(i) => i < 16,
        Op2Amount::Fixed(_) => true,
    })
    &&& (inst.op == ArmOpcode::DataProcessing && dpop_is_test(inst.dpop_f) ==> inst.sflag)
}

/// The computed second operand and shifter carry-out of an instruction,
/// against a register file and the current C flag.
pub open spec fn op2_of(inst: ArmInstruction, gpr: Seq<u32>, c_in: bool) -> (u32, bool) {
    let bv = match inst.op2.base {
        Op2Base::Immediate(k) => k,
        Op2Base::Register(i) => gpr[i as int],
    };
    let n = match inst.op2.amount {
        Op2Amount::Fixed(k) => k,
        Op2Amount::FromRegister(i) => gpr[i as int] & 0xFF,
    };
    let imm = match inst.op2.amount {
        Op2Amount::Fixed(_) => true,
        Op2Amount::FromRegister(_) => false,
    };
    apply_shift_spec(inst.op2.stype, bv, n, c_in, imm)
}

/// The source operand of a flags-only PSR write: the shift field's base,
/// unshifted.
pub open spec fn msr_operand_of(inst: ArmInstruction, gpr: Seq<u32>) -> u32 {
    match inst.op2.base {
        Op2Base::Immediate(k) => k,
        Op2Base::Register(i) => gpr[i as int],
    }
}

/// The raw opcode word of `MOV R0, R0`, the no-operation the pipeline is
/// filled with after a flush.
pub const NOP_RAW: u32 = 0xE1A0_0000;

/// The decoded form of [`NOP_RAW`].
pub open spec fn nop_inst() -> ArmInstruction {
    ArmInstruction {
        cond: Condition::AL,
        op: ArmOpcode::DataProcessing,
        rm: 0,
        rn: 0,
        rd: 0,
        rs: 0,
        sflag: false,
        acc: false,
        sign: false,
        link: false,
        spsr_f: false,
        dpop_f: ArmDPOP::MOV,
        boffset: 0,
        op2: Op2 {
            base: Op2Base::Register(0),
            stype: ShiftType::LSL,
            amount: Op2Amount::Fixed(0),
        },
    }
}

fn lsl_exec(v: u32, n: u32, c_in: bool) -> (r: (u32, bool))
    ensures
        r == lsl_spec(v, n, c_in),
{
    if n == 0 {
        (v, c_in)
    } else if n < 32 {
        (v << n, (v >> (32 - n)) & 1 != 0)
    } else if n == 32 {
        (0, v & 1 != 0)
    } else {
        (0, false)
    }
}

fn lsr_exec(v: u32, n: u32, c_in: bool) -> (r: (u32, bool))
    ensures
        r == lsr_spec(v, n, c_in),
{
    if n == 0 {
        (v, c_in)
    } else if n < 32 {
        (v >> n, (v >> (n - 1)) & 1 != 0)
    } else if n == 32 {
        (0, v & 0x8000_0000u32 != 0)
    } else {
        (0, false)
    }
}

fn asr_exec(v: u32, n: u32, c_in: bool) -> (r: (u32, bool))
    ensures
        r == asr_spec(v, n, c_in),
{
    let neg = v & 0x8000_0000u32 != 0;
    if n == 0 {
        (v, c_in)
    } else if n < 32 {
        let fill: u32 = if neg {
            0xFFFF_FFFFu32 << (32 - n)
        } else {
            0
        };
        ((v >> n) | fill, (v >> (n - 1)) & 1 != 0)
    } else {
        (
            if neg {
                0xFFFF_FFFFu32
            } else {
                0
            },
            neg,
        )
    }
}

fn ror_exec(v: u32, n: u32, c_in: bool) -> (r: (u32, bool))
    ensures
        r == ror_spec(v, n, c_in),
{
    let rot = n % 32;
    if n == 0 {
        (v, c_in)
    } else if rot == 0 {
        (v, v & 0x8000_0000u32 != 0)
    } else {
        ((v >> rot) | (v << (32 - rot)), (v >> (rot - 1)) & 1 != 0)
    }
}

fn rrx_exec(v: u32, c_in: bool) -> (r: (u32, bool))
    ensures
        r == rrx_spec(v, c_in),
{
    let hi: u32 = if c_in {
        0x8000_0000u32
    } else {
        0
    };
    ((v >> 1) | hi, v & 1 != 0)
}

impl ArmInstruction {
    /// The decoded no-operation, `MOV R0, R0`.
    pub fn nop() -> (r: ArmInstruction)
        ensures
            r == nop_inst(),
    {
        ArmInstruction {
            cond: Condition::AL,
            op: ArmOpcode::DataProcessing,
            rm: 0,
            rn: 0,
            rd: 0,
            rs: 0,
            sflag: false,
            acc: false,
            sign: false,
            link: false,
            spsr_f: false,
            dpop_f: ArmDPOP::MOV,
            boffset: 0,
            op2: Op2 {
                base: Op2Base::Register(0),
                stype: ShiftType::LSL,
                amount: Op2Amount::Fixed(0),
            },
        }
    }

    /// Compute the second operand together with the shifter carry-out,
    /// against the given register file and current C flag.
    pub fn calculate_shft_field_with_carry(&self, gpr: &[u32; 16], c_in: bool) -> (r: (u32, bool))
        requires
            inst_wf(*self),
        ensures
            r == op2_of(*self, gpr@, c_in),
    {
        let bv: u32 = match self.op2.base {
            Op2Base::Immediate(k) => k,
            Op2Base::Register(i) => gpr[i],
        };
        let n: u32;
        let imm: bool;
        match self.op2.amount {
            Op2Amount::Fixed(k) => {
                n = k;
                imm = true;
            },
            Op2Amount::FromRegister(i) => {
                n = gpr[i] & 0xFF;
                imm = false;
            },
        }
        match self.op2.stype {
            ShiftType::LSL => lsl_exec(bv, n, c_in),
            ShiftType::LSR => if imm && n == 0 {
                lsr_exec(bv, 32, c_in)
            } else {
                lsr_exec(bv, n, c_in)
            },
            ShiftType::ASR => if imm && n == 0 {
                asr_exec(bv, 32, c_in)
            } else {
                asr_exec(bv, n, c_in)
            },
            ShiftType::ROR => if imm && n == 0 {
                rrx_exec(bv, c_in)
            } else {
                ror_exec(bv, n, c_in)
            },
        }
    }

    /// Compute the second operand, discarding the shifter carry-out.
    pub fn calculate_shft_field(&self, gpr: &[u32; 16], c_in: bool) -> (r: u32)
        requires
            inst_wf(*self),
        ensures
            r == op2_of(*self, gpr@, c_in).0,
    {
        let rc = self.calculate_shft_field_with_carry(gpr, c_in);
        rc.0
    }

    /// Compute the source operand of a flags-only PSR write.
    pub fn calculate_shsr_field(&self, gpr: &[u32; 16]) -> (r: u32)
        requires
            inst_wf(*self),
        ensures
            r == msr_operand_of(*self, gpr@),
    {
        match self.op2.base {
            Op2Base::Immediate(k) => k,
            Op2Base::Register(i) => gpr[i],
        }
    }

    /// The guarding condition code.
    pub fn condition(&self) -> (r: Condition)
        ensures
            r == self.cond,
    {
        self.cond
    }

    /// The opcode class.
    pub fn opcode(&self) -> (r: ArmOpcode)
        ensures
            r == self.op,
    {
        self.op
    }

    /// First operand register field.
    #[allow(non_snake_case)]
    pub fn Rm(&self) -> (r: usize)
        ensures
            r == self.rm,
    {
        self.rm
    }

    /// Second operand register field.
    #[allow(non_snake_case)]
    pub fn Rn(&self) -> (r: usize)
        ensures
            r == self.rn,
    {
        self.rn
    }

    /// Destination register field.
    #[allow(non_snake_case)]
    pub fn Rd(&self) -> (r: usize)
        ensures
            r == self.rd,
    {
        self.rd
    }

    /// Shift amount register field.
    #[allow(non_snake_case)]
    pub fn Rs(&self) -> (r: usize)
        ensures
            r == self.rs,
    {
        self.rs
    }

    /// Whether the instruction updates the condition flags.
    pub fn is_setting_flags(&self) -> (r: bool)
        ensures
            r == self.sflag,
    {
        self.sflag
    }

    /// Whether a multiply accumulates.
    pub fn is_accumulating(&self) -> (r: bool)
        ensures
            r == self.acc,
    {
        self.acc
    }

    /// Whether a long multiply is signed.
    pub fn is_signed(&self) -> (r: bool)
        ensures
            r == self.sign,
    {
        self.sign
    }

    /// Whether a branch stores the return address in the link register.
    pub fn is_branch_with_link(&self) -> (r: bool)
        ensures
            r == self.link,
    {
        self.link
    }

    /// Whether a PSR transfer targets the SPSR rather than the CPSR.
    pub fn is_accessing_spsr(&self) -> (r: bool)
        ensures
            r == self.spsr_f,
    {
        self.spsr_f
    }

    /// The data-processing operation.
    pub fn dpop(&self) -> (r: ArmDPOP)
        ensures
            r == self.dpop_f,
    {
        self.dpop_f
    }

    /// The branch displacement in bytes, as a two's-complement word added
    /// to R15 with wrap-around.
    pub fn branch_offset(&self) -> (r: u32)
        ensures
            r == self.boffset,
    {
        self.boffset
    }
}

} // verus!
