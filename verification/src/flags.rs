//! The rules by which results set the carry, zero, overflow and negative
//! flags, and the byte arithmetic they speak of. Each is a function of
//! operands and result alone.
use vstd::prelude::*;

verus! {

/// A byte read as a signed number, `-128..=127`.
pub open spec fn signed(value: u8) -> int {
    if value < 0x80 {
        value as int
    } else {
        value as int - 256
    }
}

/// The carry flag as a number.
pub open spec fn carryValue(carry: bool) -> int {
    if carry {
        1
    } else {
        0
    }
}

/// The low eight bits of a number.
pub open spec fn lowByte(value: int) -> u8 {
    (value % 256) as u8
}

/// Zero: the result is 0.
pub open spec fn isZero(result: u8) -> bool {
    result == 0
}

/// Negative: bit 7 of the result is set.
pub open spec fn isNegative(result: u8) -> bool {
    result >= 0x80
}

/// Carry of an addition: the sum with the carry does not fit in a byte.
pub open spec fn addCarries(a: u8, b: u8, carry: bool) -> bool {
    a + b + carryValue(carry) > 255
}

/// Carry of a subtraction: no borrow, where a clear carry borrows one more.
pub open spec fn subtractCarries(a: u8, b: u8, carry: bool) -> bool {
    a - b - (1 - carryValue(carry)) >= 0
}

/// Overflow of an addition of `a` and `b` that gave `result`: the operands
/// have one sign and the result has the other.
pub open spec fn signsDisagree(a: u8, b: u8, result: u8) -> bool {
    isNegative(a) == isNegative(b) && isNegative(result) != isNegative(a)
}

/// The byte that adding `a`, `b` and the carry leaves.
pub open spec fn addition(a: u8, b: u8, carry: bool) -> u8 {
    lowByte(a + b + carryValue(carry))
}

/// The byte that taking `b` and the borrow from `a` leaves.
pub open spec fn subtraction(a: u8, b: u8, carry: bool) -> u8 {
    lowByte(a - b - (1 - carryValue(carry)))
}

/// The bitwise complement of a byte.
pub open spec fn complement(value: u8) -> u8 {
    (255 - value) as u8
}

/// A byte moved one bit to the left, with `carry` in bit 0.
pub open spec fn movedLeft(value: u8, carry: bool) -> u8 {
    lowByte(2 * value + carryValue(carry))
}

/// A byte moved one bit to the right, with `carry` in bit 7.
pub open spec fn movedRight(value: u8, carry: bool) -> u8 {
    (value / 2 + 128 * carryValue(carry)) as u8
}

/// The bit that a move to the left pushes out: bit 7.
pub open spec fn leftBit(value: u8) -> bool {
    value >= 0x80
}

/// The bit that a move to the right pushes out: bit 0.
pub open spec fn rightBit(value: u8) -> bool {
    value % 2 == 1
}

/// The zero flag for `result`.
pub fn zeroFlag(result: u8) -> (flag: bool)
    ensures
        flag == isZero(result),
{
    result == 0
}

/// The negative flag for `result`.
pub fn negativeFlag(result: u8) -> (flag: bool)
    ensures
        flag == isNegative(result),
{
    result >= 0x80
}

/// The carry flag after adding `a`, `b` and the carry.
pub fn carryOfAdd(a: u8, b: u8, carry: bool) -> (flag: bool)
    ensures
        flag == addCarries(a, b, carry),
        flag == (a + b + carryValue(carry) > 255),
{
    let c: u16 = if carry {
        1
    } else {
        0
    };
    a as u16 + b as u16 + c > 0xFF
}

/// The carry flag after taking `b` and the borrow from `a`.
pub fn carryOfSubtract(a: u8, b: u8, carry: bool) -> (flag: bool)
    ensures
        flag == subtractCarries(a, b, carry),
{
    let borrow: u16 = if carry {
        0
    } else {
        1
    };
    a as u16 >= b as u16 + borrow
}

/// The overflow flag after adding `a` and `b` gave `result`.
pub fn overflowFlag(a: u8, b: u8, result: u8) -> (flag: bool)
    ensures
        flag == signsDisagree(a, b, result),
{
    (a >= 0x80) == (b >= 0x80) && (result >= 0x80) != (a >= 0x80)
}

/// Adds with wraparound.
pub fn addBytes(a: u8, b: u8, carry: bool) -> (result: u8)
    ensures
        result == addition(a, b, carry),
{
    let c: u16 = if carry {
        1
    } else {
        0
    };
    ((a as u16 + b as u16 + c) % 256) as u8
}

/// Subtracts with wraparound.
pub fn subtractBytes(a: u8, b: u8, carry: bool) -> (result: u8)
    ensures
        result == subtraction(a, b, carry),
        result == addition(a, complement(b), carry),
{
    let c: u16 = if carry {
        1
    } else {
        0
    };
    ((a as u16 + (255 - b) as u16 + c) % 256) as u8
}

/// Moves a byte one bit to the left and puts `carry` into bit 0.
pub fn shiftLeft(value: u8, carry: bool) -> (result: u8)
    ensures
        result == movedLeft(value, carry),
{
    let c: u16 = if carry {
        1
    } else {
        0
    };
    ((2 * (value as u16) + c) % 256) as u8
}

/// Moves a byte one bit to the right and puts `carry` into bit 7.
pub fn shiftRight(value: u8, carry: bool) -> (result: u8)
    ensures
        result == movedRight(value, carry),
{
    if carry {
        value / 2 + 0x80
    } else {
        value / 2
    }
}

/// The bit that a move to the left pushes out.
pub fn leftBitOut(value: u8) -> (flag: bool)
    ensures
        flag == leftBit(value),
{
    value >= 0x80
}

/// The bit that a move to the right pushes out.
pub fn rightBitOut(value: u8) -> (flag: bool)
    ensures
        flag == rightBit(value),
{
    value % 2 == 1
}

/// The overflow flag of an addition is set exactly where the sum of the
/// operands, read as signed numbers, with the carry lies outside `-128..=127`.
pub proof fn lemma_add_overflow_is_signed_overflow(a: u8, b: u8, carry: bool)
    ensures
        signsDisagree(a, b, addition(a, b, carry)) <==> !(-128 <= signed(a) + signed(b)
            + carryValue(carry) <= 127),
{
}

/// A subtraction is the addition of the complement: same byte, same carry,
/// and an overflow flag that is set exactly where the difference of the
/// operands, read as signed numbers, less the borrow lies outside `-128..=127`.
pub proof fn lemma_subtract_is_add_of_complement(a: u8, b: u8, carry: bool)
    ensures
        subtraction(a, b, carry) == addition(a, complement(b), carry),
        subtractCarries(a, b, carry) == addCarries(a, complement(b), carry),
        signsDisagree(a, complement(b), subtraction(a, b, carry)) <==> !(-128 <= signed(a) - signed(b)
            - (1 - carryValue(carry)) <= 127),
{
}

} // verus!
