//! Floating-point numbers held as their bit patterns, and when two of them
//! are equal as numbers.
use vstd::prelude::*;

verus! {

/// Whether a single-precision bit pattern is a NaN: every exponent bit set
/// and a fraction that is not zero.
pub open spec fn is_nan_bits(b: u32) -> bool {
    (b / 0x80_0000) % 0x100 == 0xff && b % 0x80_0000 != 0
}

/// Whether a single-precision bit pattern is a zero of either sign.
pub open spec fn is_zero_bits(b: u32) -> bool {
    b % 0x8000_0000 == 0
}

/// Whether two bit patterns are equal as numbers: a NaN equals nothing, not
/// even itself, and the two zeros are equal.
pub open spec fn same_number(a: u32, b: u32) -> bool {
    !is_nan_bits(a) && !is_nan_bits(b) && (a == b || (is_zero_bits(a) && is_zero_bits(b)))
}

/// Compares two bit patterns as numbers.
pub fn same_number_bits(a: u32, b: u32) -> (res: bool)
    ensures
        res == same_number(a, b),
{
    let nan_a = (a / 0x80_0000) % 0x100 == 0xff && a % 0x80_0000 != 0;
    let nan_b = (b / 0x80_0000) % 0x100 == 0xff && b % 0x80_0000 != 0;
    !nan_a && !nan_b && (a == b || (a % 0x8000_0000 == 0 && b % 0x8000_0000 == 0))
}

/// Whether a double-precision bit pattern is a NaN.
pub open spec fn is_nan_bits64(b: u64) -> bool {
    (b / 0x10_0000_0000_0000) % 0x800 == 0x7ff && b % 0x10_0000_0000_0000 != 0
}

/// Whether a double-precision bit pattern is a zero of either sign.
pub open spec fn is_zero_bits64(b: u64) -> bool {
    b % 0x8000_0000_0000_0000 == 0
}

/// Whether two double-precision bit patterns are equal as numbers.
pub open spec fn same_number64(a: u64, b: u64) -> bool {
    !is_nan_bits64(a) && !is_nan_bits64(b) && (a == b || (is_zero_bits64(a) && is_zero_bits64(b)))
}

/// Compares two double-precision bit patterns as numbers.
pub fn same_number_bits64(a: u64, b: u64) -> (res: bool)
    ensures
        res == same_number64(a, b),
{
    let nan_a = (a / 0x10_0000_0000_0000) % 0x800 == 0x7ff && a % 0x10_0000_0000_0000 != 0;
    let nan_b = (b / 0x10_0000_0000_0000) % 0x800 == 0x7ff && b % 0x10_0000_0000_0000 != 0;
    !nan_a && !nan_b && (a == b || (a % 0x8000_0000_0000_0000 == 0 && b % 0x8000_0000_0000_0000
        == 0))
}

} // verus!
