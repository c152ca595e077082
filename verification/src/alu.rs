//! Word-level arithmetic used by the interpreter: the two's-complement
//! reading of a 32-bit word, signed comparison, arithmetic shift, and
//! the multiply/divide family with its architectural edge cases.

use vstd::prelude::*;

verus! {

/// The two's-complement value of a 32-bit word.
pub open spec fn as_signed(x: u32) -> int {
    if x >= 0x8000_0000 {
        x - 0x1_0000_0000
    } else {
        x as int
    }
}

/// The 32-bit word whose two's-complement value is `x`; meaningful for
/// `-0x1_0000_0000 <= x < 0x1_0000_0000`.
pub open spec fn to_u32(x: int) -> u32
    recommends
        -0x1_0000_0000 <= x < 0x1_0000_0000,
{
    if x < 0 {
        (x + 0x1_0000_0000) as u32
    } else {
        x as u32
    }
}

/// Sign extension of a byte held in the low bits of a word.
pub open spec fn sext8_spec(v: u32) -> u32 {
    if v & 0x80 != 0 {
        v | 0xffff_ff00
    } else {
        v
    }
}

pub fn sext8(v: u32) -> (r: u32)
    ensures
        r == sext8_spec(v),
{
    if v & 0x80 != 0 {
        v | 0xffff_ff00
    } else {
        v
    }
}

/// Sign extension of a halfword held in the low bits of a word.
pub open spec fn sext16_spec(v: u32) -> u32 {
    if v & 0x8000 != 0 {
        v | 0xffff_0000
    } else {
        v
    }
}

pub fn sext16(v: u32) -> (r: u32)
    ensures
        r == sext16_spec(v),
{
    if v & 0x8000 != 0 {
        v | 0xffff_0000
    } else {
        v
    }
}

/// Signed less-than on 32-bit words.
pub open spec fn lt_signed_spec(a: u32, b: u32) -> bool {
    as_signed(a) < as_signed(b)
}

pub fn lt_signed(a: u32, b: u32) -> (r: bool)
    ensures
        r == lt_signed_spec(a, b),
{
    let an = a >= 0x8000_0000;
    let bn = b >= 0x8000_0000;
    if an == bn {
        a < b
    } else {
        an
    }
}

/// Arithmetic right shift: the sign bit is replicated into the vacated
/// positions.
pub open spec fn sra32_spec(x: u32, sh: u32) -> u32
    recommends
        sh < 32,
{
    if x < 0x8000_0000 || sh == 0 {
        x >> sh
    } else {
        (x >> sh) | (0xffff_ffffu32 << ((32 - sh) as u32))
    }
}

pub fn sra32(x: u32, sh: u32) -> (r: u32)
    requires
        sh < 32,
    ensures
        r == sra32_spec(x, sh),
{
    if x < 0x8000_0000 || sh == 0 {
        x >> sh
    } else {
        (x >> sh) | (0xffff_ffffu32 << (32 - sh))
    }
}

/// The magnitude of the two's-complement value of `x`.
pub open spec fn abs_signed(x: u32) -> u32 {
    if x >= 0x8000_0000 {
        (0x1_0000_0000 - x) as u32
    } else {
        x
    }
}

pub fn abs_u32(x: u32) -> (r: u32)
    ensures
        r == abs_signed(x),
{
    if x >= 0x8000_0000 {
        0u32.wrapping_sub(x)
    } else {
        x
    }
}

/// Unsigned division; division by zero returns all ones, per the
/// architectural rule.
pub open spec fn divu_spec(a: u32, b: u32) -> u32 {
    if b == 0 {
        0xffff_ffffu32
    } else {
        a / b
    }
}

pub fn divu(a: u32, b: u32) -> (r: u32)
    ensures
        r == divu_spec(a, b),
{
    if b == 0 {
        0xffff_ffff
    } else {
        a / b
    }
}

/// Unsigned remainder; remainder by zero returns the dividend, per the
/// architectural rule.
pub open spec fn remu_spec(a: u32, b: u32) -> u32 {
    if b == 0 {
        a
    } else {
        a % b
    }
}

pub fn remu(a: u32, b: u32) -> (r: u32)
    ensures
        r == remu_spec(a, b),
{
    if b == 0 {
        a
    } else {
        a % b
    }
}

/// Signed division truncated toward zero; division by zero returns all
/// ones and the overflowing quotient MIN / -1 returns MIN, per the
/// architectural rule.
pub open spec fn div_spec(a: u32, b: u32) -> u32 {
    if b == 0 {
        0xffff_ffffu32
    } else if a == 0x8000_0000 && b == 0xffff_ffff {
        0x8000_0000u32
    } else {
        let q = abs_signed(a) as int / abs_signed(b) as int;
        if (a >= 0x8000_0000) != (b >= 0x8000_0000) {
            to_u32(-q)
        } else {
            to_u32(q)
        }
    }
}

pub fn div_s(a: u32, b: u32) -> (r: u32)
    ensures
        r == div_spec(a, b),
{
    if b == 0 {
        0xffff_ffff
    } else if a == 0x8000_0000 && b == 0xffff_ffff {
        0x8000_0000
    } else {
        let q = abs_u32(a) / abs_u32(b);
        if (a >= 0x8000_0000) != (b >= 0x8000_0000) {
            0u32.wrapping_sub(q)
        } else {
            q
        }
    }
}

/// Signed remainder with the sign of the dividend; remainder by zero
/// returns the dividend and the overflow case MIN % -1 returns zero,
/// per the architectural rule.
pub open spec fn rem_spec(a: u32, b: u32) -> u32 {
    if b == 0 {
        a
    } else if a == 0x8000_0000 && b == 0xffff_ffff {
        0u32
    } else {
        let m = abs_signed(a) as int % abs_signed(b) as int;
        if a >= 0x8000_0000 {
            to_u32(-m)
        } else {
            to_u32(m)
        }
    }
}

pub fn rem_s(a: u32, b: u32) -> (r: u32)
    ensures
        r == rem_spec(a, b),
{
    if b == 0 {
        a
    } else if a == 0x8000_0000 && b == 0xffff_ffff {
        0
    } else {
        let m = abs_u32(a) % abs_u32(b);
        if a >= 0x8000_0000 {
            0u32.wrapping_sub(m)
        } else {
            m
        }
    }
}

/// The high word of the unsigned 64-bit product.
pub open spec fn mulhu_spec(a: u32, b: u32) -> u32 {
    ((a * b) / 0x1_0000_0000) as u32
}

/// The high word of the signed 64-bit product.
pub open spec fn mulh_spec(a: u32, b: u32) -> u32 {
    to_u32((as_signed(a) * as_signed(b)) / 0x1_0000_0000)
}

/// The high word of the signed-times-unsigned 64-bit product.
pub open spec fn mulhsu_spec(a: u32, b: u32) -> u32 {
    to_u32((as_signed(a) * b) / 0x1_0000_0000)
}

/// The full product of two words is below 2^64.
proof fn lemma_mul_fits_u64(a: u32, b: u32)
    ensures
        0 <= a as int * b,
        a as int * b < 0x1_0000_0000 * 0x1_0000_0000,
{
    vstd::arithmetic::mul::lemma_mul_nonnegative(a as int, b as int);
    vstd::arithmetic::mul::lemma_mul_upper_bound(a as int, 0xffff_ffff, b as int, 0xffff_ffff);
}

pub fn mulhu(a: u32, b: u32) -> (r: u32)
    ensures
        r == mulhu_spec(a, b),
{
    proof {
        lemma_mul_fits_u64(a, b);
    }
    let p: u64 = (a as u64) * (b as u64);
    proof {
        vstd::bits::lemma_u64_shr_is_div(p, 32);
        vstd::arithmetic::power2::lemma2_to64();
        vstd::arithmetic::div_mod::lemma_fundamental_div_mod(p as int, 0x1_0000_0000);
    }
    (p >> 32) as u32
}

/// Relates the signed product to the unsigned one: subtracting `b` when
/// `a` is negative and `a` when `b` is negative turns the high word of
/// the unsigned product into the high word of the signed product.
proof fn lemma_mulh_correction(a: u32, b: u32)
    ensures
        ({
            let t: int = 0x1_0000_0000;
            let hi = (a * b) / t;
            let lo = (a * b) % t;
            let c1: int = if a >= 0x8000_0000 { b as int } else { 0 };
            let c2: int = if b >= 0x8000_0000 { a as int } else { 0 };
            let cc: int = if a >= 0x8000_0000 && b >= 0x8000_0000 { t } else { 0 };
            (as_signed(a) * as_signed(b)) / t == hi - c1 - c2 + cc && (as_signed(a) * b) / t == hi
                - c1 && 0 <= hi < t && 0 <= lo < t
        }),
{
    let t: int = 0x1_0000_0000;
    let sa = as_signed(a);
    let sb = as_signed(b);
    let an: int = if a >= 0x8000_0000 {
        1
    } else {
        0
    };
    let bn: int = if b >= 0x8000_0000 {
        1
    } else {
        0
    };
    let c1: int = if a >= 0x8000_0000 {
        b as int
    } else {
        0
    };
    let c2: int = if b >= 0x8000_0000 {
        a as int
    } else {
        0
    };
    let cc: int = if a >= 0x8000_0000 && b >= 0x8000_0000 {
        t
    } else {
        0
    };
    lemma_mul_fits_u64(a, b);
    vstd::arithmetic::div_mod::lemma_fundamental_div_mod(a as int * b, t);
    let hi = (a * b) / t;
    let lo = (a * b) % t;
    assert(a as int * b == t * hi + lo && 0 <= lo < t);
    assert(0 <= hi < t);
    assert(sa * sb == a as int * b - t * (an * b) - t * (bn * a) + (t * t) * (an * bn))
        by (nonlinear_arith)
        requires
            sa == a - t * an,
            sb == b - t * bn,
            t == 0x1_0000_0000,
    ;
    assert(sa * b == a as int * b - t * (an * b)) by (nonlinear_arith)
        requires
            sa == a - t * an,
            t == 0x1_0000_0000,
    ;
    // Resolve the products with the 0/1 indicator values.
    assert(an * b == c1 && bn * a == c2 && (t * t) * (an * bn) == t * cc) by (nonlinear_arith)
        requires
            an == (if a >= 0x8000_0000 { 1int } else { 0int }),
            bn == (if b >= 0x8000_0000 { 1int } else { 0int }),
            c1 == (if a >= 0x8000_0000 { b as int } else { 0int }),
            c2 == (if b >= 0x8000_0000 { a as int } else { 0int }),
            cc == (if a >= 0x8000_0000 && b >= 0x8000_0000 { t } else { 0int }),
            t == 0x1_0000_0000,
    ;
    assert(sa * sb == t * (hi - c1 - c2 + cc) + lo);
    assert(sa * b == t * (hi - c1) + lo);
    vstd::arithmetic::div_mod::lemma_fundamental_div_mod_converse(
        sa * sb,
        t,
        hi - c1 - c2 + cc,
        lo,
    );
    vstd::arithmetic::div_mod::lemma_fundamental_div_mod_converse(sa * b, t, hi - c1, lo);
}

pub fn mulh(a: u32, b: u32) -> (r: u32)
    ensures
        r == mulh_spec(a, b),
{
    let hi = mulhu(a, b);
    let c1: u32 = if a >= 0x8000_0000 {
        b
    } else {
        0
    };
    let c2: u32 = if b >= 0x8000_0000 {
        a
    } else {
        0
    };
    proof {
        lemma_mulh_correction(a, b);
    }
    hi.wrapping_sub(c1).wrapping_sub(c2)
}

pub fn mulhsu(a: u32, b: u32) -> (r: u32)
    ensures
        r == mulhsu_spec(a, b),
{
    let hi = mulhu(a, b);
    let c1: u32 = if a >= 0x8000_0000 {
        b
    } else {
        0
    };
    proof {
        lemma_mulh_correction(a, b);
    }
    hi.wrapping_sub(c1)
}

} // verus!
