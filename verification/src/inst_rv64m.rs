use crate::bits::{as_signed, as_unsigned, from_int, pow2_64, to_signed};
use vstd::prelude::*;

verus! {

/// The low 64 bits of the product.
pub open spec fn mul_spec(a: u64, b: u64) -> u64 {
    from_int(a * b)
}

/// The high 64 bits of the product of two unsigned words.
pub open spec fn mulhu_spec(a: u64, b: u64) -> u64 {
    ((a * b) / pow2_64()) as u64
}

/// The high 64 bits of the product of two signed words.
pub open spec fn mulh_spec(a: u64, b: u64) -> u64 {
    from_int((to_signed(a) * to_signed(b)) / pow2_64())
}

/// The high 64 bits of the product of a signed and an unsigned word.
pub open spec fn mulhsu_spec(a: u64, b: u64) -> u64 {
    from_int((to_signed(a) * b) / pow2_64())
}

/// The quotient rounded towards zero.
pub open spec fn trunc_div(x: int, d: int) -> int
    recommends
        d != 0,
{
    if x == 0 {
        0
    } else if x > 0 && d > 0 {
        x / d
    } else if x < 0 && d < 0 {
        (-x) / (-d)
    } else if x < 0 {
        -((-x) / d)
    } else {
        -(x / (-d))
    }
}

/// The remainder that goes with `trunc_div`: it has the sign of the
/// dividend.
pub open spec fn trunc_rem(x: int, d: int) -> int
    recommends
        d != 0,
{
    if x == 0 {
        0
    } else if x > 0 && d > 0 {
        x % d
    } else if x < 0 && d < 0 {
        -((-x) % (-d))
    } else if x < 0 {
        -((-x) % d)
    } else {
        x % (-d)
    }
}

/// Signed division: all ones for a zero divisor, and otherwise the
/// quotient rounded towards zero, modulo two to the 64.
pub open spec fn div_spec(a: u64, b: u64) -> u64 {
    if b == 0 {
        u64::MAX
    } else {
        from_int(trunc_div(to_signed(a), to_signed(b)))
    }
}

/// Unsigned division: all ones for a zero divisor.
pub open spec fn divu_spec(a: u64, b: u64) -> u64 {
    if b == 0 {
        u64::MAX
    } else {
        a / b
    }
}

/// Signed remainder: the dividend for a zero divisor.
pub open spec fn rem_spec(a: u64, b: u64) -> u64 {
    if b == 0 {
        a
    } else {
        from_int(trunc_rem(to_signed(a), to_signed(b)))
    }
}

/// Unsigned remainder: the dividend for a zero divisor.
pub open spec fn remu_spec(a: u64, b: u64) -> u64 {
    if b == 0 {
        a
    } else {
        a % b
    }
}

pub fn mul(a: u64, b: u64) -> (r: u64)
    ensures
        r == mul_spec(a, b),
{
    assert(a * b >= 0) by (nonlinear_arith)
        requires
            a >= 0,
            b >= 0,
    ;
    a.wrapping_mul(b)
}

pub fn mulhu(a: u64, b: u64) -> (r: u64)
    ensures
        r == mulhu_spec(a, b),
{
    assert(a * b <= 0xffff_ffff_ffff_ffff * 0xffff_ffff_ffff_ffff) by (nonlinear_arith)
        requires
            a <= 0xffff_ffff_ffff_ffff,
            b <= 0xffff_ffff_ffff_ffff,
    ;
    let p: u128 = (a as u128) * (b as u128);
    assert(p >> 64 == p / 0x1_0000_0000_0000_0000 && (p
        <= 0xffff_ffff_ffff_fffe_0000_0000_0000_0001u128 ==> p / 0x1_0000_0000_0000_0000
        <= 0xffff_ffff_ffff_ffff)) by (bit_vector);
    (p >> 64) as u64
}

/// The bits 127 to 64 of a 128-bit signed product.
fn high_half(p: i128) -> (r: u64)
    ensures
        r == from_int(p as int / pow2_64()),
{
    let q: i128 = p >> 64;
    assert(q == p / 0x1_0000_0000_0000_0000) by (bit_vector)
        requires
            q == p >> 64,
    ;
    let r: u64 = #[verifier::truncate] (q as u64);
    assert(r as int == (q as int) % 0x1_0000_0000_0000_0000) by (bit_vector)
        requires
            r == q as u64,
    ;
    r
}

pub fn mulh(a: u64, b: u64) -> (r: u64)
    ensures
        r == mulh_spec(a, b),
{
    let sa: i64 = as_signed(a);
    let sb: i64 = as_signed(b);
    assert(-0x4000_0000_0000_0000_0000_0000_0000_0000 <= sa * sb
        <= 0x4000_0000_0000_0000_0000_0000_0000_0000) by (nonlinear_arith)
        requires
            -0x8000_0000_0000_0000 <= sa <= 0x7fff_ffff_ffff_ffff,
            -0x8000_0000_0000_0000 <= sb <= 0x7fff_ffff_ffff_ffff,
    ;
    high_half((sa as i128) * (sb as i128))
}

pub fn mulhsu(a: u64, b: u64) -> (r: u64)
    ensures
        r == mulhsu_spec(a, b),
{
    let sa: i64 = as_signed(a);
    assert(-0x8000_0000_0000_0000_0000_0000_0000_0000 <= sa * b
        <= 0x8000_0000_0000_0000_0000_0000_0000_0000 - 1) by (nonlinear_arith)
        requires
            -0x8000_0000_0000_0000 <= sa <= 0x7fff_ffff_ffff_ffff,
            0 <= b <= 0xffff_ffff_ffff_ffff,
    ;
    high_half((sa as i128) * (b as i128))
}

pub fn div(a: u64, b: u64) -> (r: u64)
    ensures
        r == div_spec(a, b),
{
    if b == 0 {
        return u64::MAX;
    }
    match as_signed(a).checked_div(as_signed(b)) {
        Some(q) => as_unsigned(q),
        None => a,
    }
}

pub fn divu(a: u64, b: u64) -> (r: u64)
    ensures
        r == divu_spec(a, b),
{
    if b == 0 {
        u64::MAX
    } else {
        a / b
    }
}

pub fn rem(a: u64, b: u64) -> (r: u64)
    ensures
        r == rem_spec(a, b),
{
    if b == 0 {
        return a;
    }
    match as_signed(a).checked_rem(as_signed(b)) {
        Some(q) => as_unsigned(q),
        None => 0,
    }
}

pub fn remu(a: u64, b: u64) -> (r: u64)
    ensures
        r == remu_spec(a, b),
{
    if b == 0 {
        a
    } else {
        a % b
    }
}

/// Division by zero gives a quotient of all ones and the dividend as
/// remainder. The most negative number divided by minus one gives itself
/// as quotient and a remainder of zero.
pub proof fn lemma_division_boundaries(a: u64)
    ensures
        div_spec(a, 0) == u64::MAX,
        divu_spec(a, 0) == u64::MAX,
        rem_spec(a, 0) == a,
        remu_spec(a, 0) == a,
        div_spec(0x8000_0000_0000_0000, u64::MAX) == 0x8000_0000_0000_0000,
        rem_spec(0x8000_0000_0000_0000, u64::MAX) == 0,
{
}

} // verus!
