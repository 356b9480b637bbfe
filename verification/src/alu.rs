//! The arithmetic of the byte registers: sums, differences and shifts with
//! the flag that each of them gives.

use vstd::prelude::*;

verus! {

/// A number brought into a byte by dropping what does not fit: the result
/// of arithmetic that wraps.
pub open spec fn wrapped_byte(n: int) -> u8 {
    (n % 0x100) as u8
}

/// A number brought into sixteen bits by dropping what does not fit.
pub open spec fn wrapped_word(n: int) -> u16 {
    (n % 0x1_0000) as u16
}

/// Adds two bytes. Returns the sum, wrapped into a byte, and the carry:
/// whether the sum was above 255.
pub fn add_with_carry(a: u8, b: u8) -> (sum: (u8, bool))
    ensures
        sum.0 == wrapped_byte(a + b),
        sum.1 == (a + b > 0xFF),
{
    (a.wrapping_add(b), a as u16 + b as u16 > 0xFF)
}

/// Subtracts `b` from `a`. Returns the difference, wrapped into a byte, and
/// whether `a` sufficed: `true` where nothing was borrowed, that is where
/// `a >= b`.
pub fn subtract_with_borrow(a: u8, b: u8) -> (difference: (u8, bool))
    ensures
        difference.0 == wrapped_byte(a - b),
        difference.1 == (a >= b),
{
    (a.wrapping_sub(b), a >= b)
}

/// Shifts a byte one bit to the right. Returns the shifted byte and the bit
/// that fell out: whether the lowest bit was set.
pub fn shift_right(a: u8) -> (shifted: (u8, bool))
    ensures
        shifted.0 == a / 2,
        shifted.1 == (a % 2 == 1),
{
    assert((a & 0x1 == 1) == (a % 2 == 1) && a >> 1 == a / 2) by (bit_vector);
    (a >> 1, a & 0x1 == 1)
}

/// Shifts a byte one bit to the left. Returns the shifted byte, wrapped into
/// a byte, and the bit that fell out: whether the highest bit was set.
pub fn shift_left(a: u8) -> (shifted: (u8, bool))
    ensures
        shifted.0 == wrapped_byte(a * 2),
        shifted.1 == (a >= 0x80),
{
    assert((a & 0x80 != 0) == (a >= 0x80) && a << 1 == (a * 2) % 0x100) by (bit_vector);
    (a << 1, a & 0x80 != 0)
}

} // verus!
