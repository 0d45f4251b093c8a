//! Arithmetic of the executor: the 33-bit adder with carry and signed
//! overflow that every add- and subtract-family operation is built on,
//! wrap-around address arithmetic, and the 32- and 64-bit multiplies.

use vstd::prelude::*;
use vstd::arithmetic::div_mod::{lemma_mod_add_multiples_vanish, lemma_mod_multiples_vanish};
use vstd::arithmetic::mul::{lemma_mul_is_distributive_add_other_way, lemma_mul_upper_bound};

verus! {

/// Two to the 32nd, the modulus of the 32-bit registers.
pub const WORD_MODULUS: u64 = 0x1_0000_0000;

/// Two to the 64th, the modulus of the long multiply.
pub const LONG_MODULUS: u128 = 0x1_0000_0000_0000_0000;

/// The bitwise complement of a word, written arithmetically.
pub open spec fn comp32(b: u32) -> u32 {
    (0xFFFF_FFFFu32 - b) as u32
}

/// The 32-bit result of the 33-bit sum `a + b + ci`.
pub open spec fn add3val(a: u32, b: u32, ci: u32) -> u32 {
    ((a + b + ci) % (WORD_MODULUS as int)) as u32
}

/// The carry out of the 33-bit sum `a + b + ci`.
pub open spec fn add3carry(a: u32, b: u32, ci: u32) -> bool {
    a + b + ci >= WORD_MODULUS
}

/// The signed overflow of the sum `a + b + ci`: the operands agree in
/// sign and the result differs from them.
pub open spec fn add3over(a: u32, b: u32, ci: u32) -> bool {
    let r = add3val(a, b, ci);
    ((a ^ r) & (b ^ r) & 0x8000_0000u32) != 0
}

/// The sum of two words, wrapping around the 32-bit range.
pub open spec fn wadd(a: u32, b: u32) -> u32 {
    ((a + b) % (WORD_MODULUS as int)) as u32
}

/// The difference of two words, wrapping around the 32-bit range.
pub open spec fn wsub(a: u32, b: u32) -> u32 {
    ((a - b) % (WORD_MODULUS as int)) as u32
}

/// The signed value a word stores in two's complement.
pub open spec fn sgn32(x: u32) -> int {
    if x >= 0x8000_0000u32 {
        x - WORD_MODULUS
    } else {
        x as int
    }
}

/// The 32-bit result of a multiply, accumulating `acc_v` when `acc` is
/// set, wrapping around the 32-bit range.
pub open spec fn mul_val(rs_v: u32, rm_v: u32, acc: bool, acc_v: u32) -> u32 {
    ((rs_v * rm_v + (if acc {
        acc_v as int
    } else {
        0
    })) % (WORD_MODULUS as int)) as u32
}

/// The 64-bit result of a long multiply: the product of the signed or
/// unsigned readings of the operands, plus the concatenation of `hi` and
/// `lo` when accumulating, wrapping around the 64-bit range.
pub open spec fn mul_long_val(sign: bool, rs_v: u32, rm_v: u32, acc: bool, hi: u32, lo: u32) -> u64 {
    let p = if sign {
        sgn32(rs_v) * sgn32(rm_v)
    } else {
        rs_v * rm_v
    };
    let a = if acc {
        hi * WORD_MODULUS + lo
    } else {
        0
    };
    (((p + a) % (LONG_MODULUS as int))) as u64
}

/// The 33-bit adder: 32-bit result, carry out, and signed overflow of
/// `a + b + ci`.
pub fn add_carry_overflow(a: u32, b: u32, ci: u32) -> (r: (u32, bool, bool))
    requires
        ci <= 1,
    ensures
        r.0 == add3val(a, b, ci),
        r.1 == add3carry(a, b, ci),
        r.2 == add3over(a, b, ci),
{
    let s: u64 = a as u64 + b as u64 + ci as u64;
    let rv: u32 = (s % WORD_MODULUS) as u32;
    let carry = s >= WORD_MODULUS;
    let over = ((a ^ rv) & (b ^ rv) & 0x8000_0000u32) != 0;
    (rv, carry, over)
}

/// The subtract family through the adder: `a - b - (1 - ci)` computed as
/// `a + !b + ci`, so the carry out means no borrow.
pub fn sub_carry_overflow(a: u32, b: u32, ci: u32) -> (r: (u32, bool, bool))
    requires
        ci <= 1,
    ensures
        r.0 == add3val(a, comp32(b), ci),
        r.1 == add3carry(a, comp32(b), ci),
        r.2 == add3over(a, comp32(b), ci),
{
    add_carry_overflow(a, 0xFFFF_FFFFu32 - b, ci)
}

/// The subtraction `a - b` borrows exactly when `a < b`: its carry flag
/// is set if and only if `a >= b`.
pub proof fn lemma_sub_no_borrow(a: u32, b: u32)
    ensures
        add3carry(a, comp32(b), 1) == (a >= b),
{
}

/// Wrap-around addition of two words.
pub fn wrapping_add32(a: u32, b: u32) -> (r: u32)
    ensures
        r == wadd(a, b),
{
    ((a as u64 + b as u64) % WORD_MODULUS) as u32
}

/// Wrap-around subtraction of two words.
pub fn wrapping_sub32(a: u32, b: u32) -> (r: u32)
    ensures
        r == wsub(a, b),
{
    proof {
        lemma_mod_add_multiples_vanish(a - b, WORD_MODULUS as int);
    }
    ((a as u64 + WORD_MODULUS - b as u64) % WORD_MODULUS) as u32
}

/// The 32-bit multiply, with optional accumulation.
pub fn mul32(rs_v: u32, rm_v: u32, acc: bool, acc_v: u32) -> (r: u32)
    ensures
        r == mul_val(rs_v, rm_v, acc, acc_v),
{
    proof {
        lemma_mul_upper_bound(rs_v as int, 0xFFFF_FFFF, rm_v as int, 0xFFFF_FFFF);
    }
    let p: u64 = rs_v as u64 * rm_v as u64;
    let total: u64 = if acc {
        p + acc_v as u64
    } else {
        p
    };
    (total % WORD_MODULUS) as u32
}

/// The 64-bit multiply of the signed or unsigned readings of the two
/// operands, with optional accumulation of the concatenation of `hi` and
/// `lo`.
pub fn mul64(sign: bool, rs_v: u32, rm_v: u32, acc: bool, hi: u32, lo: u32) -> (r: u64)
    ensures
        r == mul_long_val(sign, rs_v, rm_v, acc, hi, lo),
{
    let se_rs: u64 = if sign && rs_v >= 0x8000_0000u32 {
        rs_v as u64 + 0xFFFF_FFFF_0000_0000u64
    } else {
        rs_v as u64
    };
    let se_rm: u64 = if sign && rm_v >= 0x8000_0000u32 {
        rm_v as u64 + 0xFFFF_FFFF_0000_0000u64
    } else {
        rm_v as u64
    };
    proof {
        lemma_mul_upper_bound(se_rs as int, 0xFFFF_FFFF_FFFF_FFFF, se_rm as int,
            0xFFFF_FFFF_FFFF_FFFF);
    }
    let p: u128 = se_rs as u128 * se_rm as u128;
    let a: u128;
    if acc {
        proof {
            lemma_mul_upper_bound(hi as int, 0xFFFF_FFFF, WORD_MODULUS as int,
                WORD_MODULUS as int);
        }
        a = hi as u128 * WORD_MODULUS as u128 + lo as u128;
    } else {
        a = 0;
    }
    let r: u64 = ((p + a) % LONG_MODULUS) as u64;
    proof {
        let m = LONG_MODULUS as int;
        let ps = if sign {
            sgn32(rs_v) * sgn32(rm_v)
        } else {
            rs_v * rm_v as int
        };
        let k1: int = if sign && rs_v >= 0x8000_0000u32 {
            1
        } else {
            0
        };
        let k2: int = if sign && rm_v >= 0x8000_0000u32 {
            1
        } else {
            0
        };
        let sa: int = if sign {
            sgn32(rs_v)
        } else {
            rs_v as int
        };
        let sb: int = if sign {
            sgn32(rm_v)
        } else {
            rm_v as int
        };
        assert(se_rs == sa + k1 * m && se_rm == sb + k2 * m);
        assert(se_rs * se_rm == sa * sb + m * (k1 * sb + k2 * sa + k1 * k2 * m))
            by (nonlinear_arith)
            requires
                se_rs == sa + k1 * m,
                se_rm == sb + k2 * m,
        ;
        assert(ps == sa * sb);
        lemma_mod_multiples_vanish(k1 * sb + k2 * sa + k1 * k2 * m, ps + a, m);
        assert((se_rs * se_rm + a) % m == (ps + a) % m);
    }
    r
}

} // verus!
