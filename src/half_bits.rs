use vstd::prelude::*;

verus! {

/// The five exponent bits of a half-precision bit pattern.
pub open spec fn exponent_field(bits: u16) -> u16 {
    (bits >> 10u16) & 0x1fu16
}

/// The ten mantissa bits of a half-precision bit pattern.
pub open spec fn mantissa_field(bits: u16) -> u16 {
    bits & 0x3ffu16
}

/// The sign bit of a half-precision bit pattern.
pub open spec fn sign_field(bits: u16) -> bool {
    bits & 0x8000u16 != 0
}

/// An IEEE 754 binary16 value, decoded without rounding.
///
/// A finite value is `(-1)^negative * significand * 2^exponent`.
#[derive(Clone, Copy, Debug, PartialEq, Eq, Structural)]
pub enum HalfValue {
    Finite { negative: bool, significand: u16, exponent: i8 },
    Infinite { negative: bool },
    NotANumber,
}

/// What a bit pattern stands for, read field by field.
pub open spec fn half_value_of(bits: u16) -> HalfValue {
    let e = exponent_field(bits);
    let m = mantissa_field(bits);
    let neg = sign_field(bits);
    if e == 0 {
        HalfValue::Finite { negative: neg, significand: m, exponent: -24i8 }
    } else if e != 31 {
        HalfValue::Finite { negative: neg, significand: (m + 1024) as u16, exponent: (e - 25) as i8 }
    } else if m == 0 {
        HalfValue::Infinite { negative: neg }
    } else {
        HalfValue::NotANumber
    }
}

/// Splits a half-precision bit pattern into sign, significand and power of two.
pub fn decode_half(bits: u16) -> (r: HalfValue)
    ensures
        r == half_value_of(bits),
{
    let exp: u16 = (bits >> 10u16) & 0x1fu16;
    let mant: u16 = bits & 0x3ffu16;
    let negative: bool = bits & 0x8000u16 != 0;
    assert(exp < 32) by (bit_vector)
        requires exp == (bits >> 10u16) & 0x1fu16;
    assert(mant < 1024) by (bit_vector)
        requires mant == bits & 0x3ffu16;
    if exp == 0 {
        HalfValue::Finite { negative, significand: mant, exponent: -24i8 }
    } else if exp != 31 {
        HalfValue::Finite { negative, significand: mant + 1024, exponent: (exp as i8) - 25 }
    } else if mant == 0 {
        HalfValue::Infinite { negative }
    } else {
        HalfValue::NotANumber
    }
}

} // verus!
