use vstd::prelude::*;

verus! {

/// Two to the power 64, as a mathematical integer.
pub open spec fn pow2_64() -> int {
    0x1_0000_0000_0000_0000
}

/// The value of a 64-bit word read as a two's-complement signed integer.
pub open spec fn to_signed(a: u64) -> int {
    if a >= 0x8000_0000_0000_0000 {
        a - pow2_64()
    } else {
        a as int
    }
}

/// The 64-bit word that represents the integer `x` modulo two to the 64.
pub open spec fn from_int(x: int) -> u64 {
    (x % pow2_64()) as u64
}

/// Sign extension of the low bits of `x`: `modulus` is two to the number of
/// bits that are kept, and the top kept bit is copied into all higher bits.
pub open spec fn sign_extend_spec(x: u64, modulus: u64) -> u64 {
    if modulus == 0 {
        x
    } else {
        let w = x % modulus;
        if w >= modulus / 2 && modulus >= 2 {
            (w + (u64::MAX - modulus + 1)) as u64
        } else {
            w
        }
    }
}

pub fn sign_extend(x: u64, modulus: u64) -> (r: u64)
    ensures
        r == sign_extend_spec(x, modulus),
{
    if modulus == 0 {
        x
    } else {
        let w: u64 = x % modulus;
        if w >= modulus / 2 && modulus >= 2 {
            w + (u64::MAX - modulus + 1)
        } else {
            w
        }
    }
}

/// Sign extension of the low 32 bits of `x` to 64 bits.
pub open spec fn sext32(x: u64) -> u64 {
    sign_extend_spec(x, 0x1_0000_0000)
}

/// Signed less-than on 64-bit words.
pub fn signed_lt(a: u64, b: u64) -> (r: bool)
    ensures
        r == (to_signed(a) < to_signed(b)),
{
    let na: bool = a >= 0x8000_0000_0000_0000;
    let nb: bool = b >= 0x8000_0000_0000_0000;
    if na != nb {
        na
    } else {
        a < b
    }
}

/// Reinterprets a 64-bit word as a signed integer.
pub fn as_signed(a: u64) -> (r: i64)
    ensures
        r as int == to_signed(a),
{
    let r: i64 = #[verifier::truncate] (a as i64);
    assert(a >= 0x8000_0000_0000_0000u64 ==> (a as i64) as int == a as int
        - 0x1_0000_0000_0000_0000int) by (bit_vector);
    r
}

/// Reinterprets a signed integer as a 64-bit word.
pub fn as_unsigned(x: i64) -> (r: u64)
    ensures
        to_signed(r) == x as int,
{
    let r: u64 = #[verifier::truncate] (x as u64);
    assert(x < 0 ==> (x as u64) as int == x as int + 0x1_0000_0000_0000_0000int)
        by (bit_vector);
    r
}

/// Whether any bit of `mask` is set in `v`.
pub open spec fn any_bit(v: u64, mask: u64) -> bool {
    v & mask != 0
}

/// `v` with the bits of `mask` set when `on`, and cleared otherwise.
pub open spec fn with_bits(v: u64, mask: u64, on: bool) -> u64 {
    if on {
        v | mask
    } else {
        v & !mask
    }
}

pub fn test_any_bit(v: u64, mask: u64) -> (r: bool)
    ensures
        r == any_bit(v, mask),
{
    v & mask != 0
}

pub fn set_bits(v: u64, mask: u64, on: bool) -> (r: u64)
    ensures
        r == with_bits(v, mask, on),
{
    if on {
        v | mask
    } else {
        v & !mask
    }
}

/// The field of `reg` selected by the contiguous `mask`, shifted down to
/// bit zero.
pub open spec fn get_field_spec(reg: u64, mask: u64) -> u64 {
    let low = mask & !(mask << 1);
    if low == 0 {
        0
    } else {
        (reg & mask) / low
    }
}

/// `reg` with the field selected by the contiguous `mask` replaced by `val`.
pub open spec fn set_field_spec(reg: u64, mask: u64, val: u64) -> u64 {
    let low = mask & !(mask << 1);
    (reg & !mask) | (vstd::wrapping::u64_specs::wrapping_mul(val, low) & mask)
}

pub fn get_field(reg: u64, mask: u64) -> (r: u64)
    ensures
        r == get_field_spec(reg, mask),
{
    let low: u64 = mask & !(mask << 1);
    if low == 0 {
        0
    } else {
        (reg & mask) / low
    }
}

pub fn set_field(reg: u64, mask: u64, val: u64) -> (r: u64)
    ensures
        r == set_field_spec(reg, mask, val),
{
    let low: u64 = mask & !(mask << 1);
    (reg & !mask) | (val.wrapping_mul(low) & mask)
}

} // verus!

verus! {

/// The mask of the low `len` bytes of a word, for the access widths 1, 2,
/// 4 and 8; any other width counts as 8.
pub open spec fn low_mask(len: u64) -> u64 {
    if len == 1 {
        0xff
    } else if len == 2 {
        0xffff
    } else if len == 4 {
        0xffff_ffff
    } else {
        0xffff_ffff_ffff_ffff
    }
}

/// What an access of `len` bytes at byte `byte_off` of the register `reg`
/// reads.
pub open spec fn reg_bytes(reg: u64, byte_off: u64, len: u64) -> u64 {
    (reg >> (8 * (byte_off % 8))) & low_mask(len)
}

/// The register `reg` after an access of `len` bytes at byte `byte_off`
/// stores `data`.
pub open spec fn reg_with_bytes(reg: u64, byte_off: u64, len: u64, data: u64) -> u64 {
    let shift = 8 * (byte_off % 8);
    let mask = low_mask(len) << shift;
    (reg & !mask) | ((data << shift) & mask)
}

pub fn width_mask(len: u64) -> (r: u64)
    ensures
        r == low_mask(len),
{
    if len == 1 {
        0xff
    } else if len == 2 {
        0xffff
    } else if len == 4 {
        0xffff_ffff
    } else {
        0xffff_ffff_ffff_ffff
    }
}

pub fn read_reg_bytes(reg: u64, byte_off: u64, len: u64) -> (r: u64)
    ensures
        r == reg_bytes(reg, byte_off, len),
{
    (reg >> (8 * (byte_off % 8))) & width_mask(len)
}

pub fn write_reg_bytes(reg: u64, byte_off: u64, len: u64, data: u64) -> (r: u64)
    ensures
        r == reg_with_bytes(reg, byte_off, len, data),
{
    let shift: u64 = 8 * (byte_off % 8);
    let mask: u64 = width_mask(len) << shift;
    (reg & !mask) | ((data << shift) & mask)
}

} // verus!
