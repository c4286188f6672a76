//! Arithmetic and shift units of the processor, as pure functions from
//! register and operand values to results and flag outputs.
//!
//! Addition and subtraction carry exact unsigned (carry) and signed
//! (overflow) semantics in their contracts, so flag behaviour is pinned for
//! every accumulator/operand/carry-in combination.

use vstd::prelude::*;

verus! {

/// The value of a byte reinterpreted as a signed two's-complement number.
pub open spec fn signed_val(v: u8) -> int {
    if v < 128 {
        v as int
    } else {
        v as int - 256
    }
}

/// Whether the high (sign) bit of a byte is set.
pub open spec fn bit7(v: u8) -> bool {
    v >= 128
}

/// The low eight bits of a non-negative integer.
pub open spec fn low8(x: int) -> u8
    recommends
        x >= 0,
{
    (x % 256) as u8
}

/// The signed two's-complement value of a byte, as executable code.
pub fn signed_of(v: u8) -> (r: i32)
    ensures
        r == signed_val(v),
{
    if v < 128 {
        v as i32
    } else {
        v as i32 - 256
    }
}

/// Add with carry: result, carry-out, and signed overflow of
/// `a + m + carry_in` in 8 bits.
pub fn adc(a: u8, m: u8, carry_in: bool) -> (r: (u8, bool, bool))
    ensures
        r.0 == low8(a + m + (if carry_in { 1int } else { 0int })),
        r.1 == (a + m + (if carry_in { 1int } else { 0int }) > 255),
        r.2 == ({
            let s = signed_val(a) + signed_val(m) + (if carry_in { 1int } else { 0int });
            s < -128 || s > 127
        }),
{
    let c: u16 = if carry_in {
        1
    } else {
        0
    };
    let sum: u16 = a as u16 + m as u16 + c;
    let result: u8 = (sum % 256) as u8;
    let carry_out: bool = sum > 255;
    let s: i32 = signed_of(a) + signed_of(m) + c as i32;
    let overflow: bool = s < -128 || s > 127;
    (result, carry_out, overflow)
}

/// Subtract with borrow: result, carry-out (borrow clear), and signed
/// overflow of `a - m - (1 - carry_in)` in 8 bits.
pub fn sbc(a: u8, m: u8, carry_in: bool) -> (r: (u8, bool, bool))
    ensures
        r.0 == ({
            let d = a - m - (if carry_in { 0int } else { 1int });
            if d < 0 {
                (d + 256) as u8
            } else {
                d as u8
            }
        }),
        r.1 == (a - m - (if carry_in { 0int } else { 1int }) >= 0),
        r.2 == ({
            let s = signed_val(a) - signed_val(m) - (if carry_in { 0int } else { 1int });
            s < -128 || s > 127
        }),
{
    let b: i32 = if carry_in {
        0
    } else {
        1
    };
    let d: i32 = a as i32 - m as i32 - b;
    let result: u8 = if d < 0 {
        (d + 256) as u8
    } else {
        d as u8
    };
    let carry_out: bool = d >= 0;
    let s: i32 = signed_of(a) - signed_of(m) - b;
    let overflow: bool = s < -128 || s > 127;
    (result, carry_out, overflow)
}

/// Arithmetic shift left by one: the result and the bit shifted out.
pub fn asl(v: u8) -> (r: (u8, bool))
    ensures
        r.0 == low8(2 * v),
        r.1 == bit7(v),
{
    let wide: u16 = v as u16 * 2;
    ((wide % 256) as u8, v >= 128)
}

/// Logical shift right by one: the result and the bit shifted out.
pub fn lsr(v: u8) -> (r: (u8, bool))
    ensures
        r.0 == v / 2,
        r.1 == (v % 2 == 1),
{
    (v / 2, v % 2 == 1)
}

/// Rotate left through carry: the result and the bit shifted out.
pub fn rol(v: u8, carry_in: bool) -> (r: (u8, bool))
    ensures
        r.0 == low8(2 * v + (if carry_in { 1int } else { 0int })),
        r.1 == bit7(v),
{
    let c: u16 = if carry_in {
        1
    } else {
        0
    };
    let wide: u16 = v as u16 * 2 + c;
    ((wide % 256) as u8, v >= 128)
}

/// Rotate right through carry: the result and the bit shifted out.
pub fn ror(v: u8, carry_in: bool) -> (r: (u8, bool))
    ensures
        r.0 == v / 2 + (if carry_in { 128int } else { 0int }),
        r.1 == (v % 2 == 1),
{
    let c: u8 = if carry_in {
        128
    } else {
        0
    };
    (v / 2 + c, v % 2 == 1)
}

/// Compare two bytes as an unsigned subtraction: carry (no borrow), zero,
/// and the sign bit of the wrapped difference.
pub fn compare_vals(lhs: u8, rhs: u8) -> (r: (bool, bool, bool))
    ensures
        r.0 == (lhs >= rhs),
        r.1 == (lhs == rhs),
        r.2 == bit7(low8(lhs - rhs + 256)),
{
    let d: i32 = lhs as i32 - rhs as i32;
    let wrapped: u8 = if d < 0 {
        (d + 256) as u8
    } else {
        d as u8
    };
    (lhs >= rhs, lhs == rhs, wrapped >= 128)
}

} // verus!
