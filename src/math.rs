use vstd::prelude::*;

use crate::errors::ErrorCode;

verus! {

/// Number of fractional bits of a Q64.64 fixed-point value.
pub const Q64_RESOLUTION: u8 = 64;

/// One unit in Q64.64 (2^64).
pub open spec fn q64() -> int {
    0x1_0000_0000_0000_0000int
}

/// 2^128, the modulus of the cyclic growth accumulators.
pub open spec fn growth_modulus() -> int {
    0x1_0000_0000_0000_0000_0000_0000_0000_0000int
}

/// 2^64, the modulus of the owed-amount counters.
pub open spec fn owed_modulus() -> int {
    0x1_0000_0000_0000_0000int
}

/// A value of the cyclic group of growth accumulators: `v` reduced modulo 2^128.
pub open spec fn wrap_growth(v: int) -> int {
    v % growth_modulus()
}

/// `a * b / c` rounded down, failing with `DivideByZero` when `c` is zero and with
/// `MulDivOverflow` when the product `a * b` does not fit in 128 bits.
pub fn checked_mul_div(a: u128, b: u128, c: u128) -> (r: Result<u128, ErrorCode>)
    ensures
        c == 0 ==> r == Err::<u128, ErrorCode>(ErrorCode::DivideByZero),
        c != 0 && a * b > u128::MAX ==> r == Err::<u128, ErrorCode>(ErrorCode::MulDivOverflow),
        c != 0 && a * b <= u128::MAX ==> r == Ok::<u128, ErrorCode>(((a * b) / (c as int)) as u128),
{
    if c == 0 {
        return Err(ErrorCode::DivideByZero);
    }
    match a.checked_mul(b) {
        Some(p) => Ok(p / c),
        None => Err(ErrorCode::MulDivOverflow),
    }
}

/// What `mul_div_or_zero` yields: the quotient when it can be computed, else zero.
pub open spec fn mul_div_or_zero_spec(a: int, b: int, c: int) -> int {
    if c != 0 && a * b <= u128::MAX {
        (a * b) / c
    } else {
        0
    }
}

/// `a * b / c` rounded down, or zero where `checked_mul_div` would fail: the fail-open
/// policy of reward emission, which halts an emission that cannot be computed instead
/// of failing the operation around it.
pub fn mul_div_or_zero(a: u128, b: u128, c: u128) -> (r: u128)
    ensures
        r == mul_div_or_zero_spec(a as int, b as int, c as int),
{
    match checked_mul_div(a, b, c) {
        Ok(v) => v,
        Err(_) => 0,
    }
}

/// `(a * b) >> 64` as a 64-bit amount: the token amount that `a` units of liquidity earn
/// over a Q64.64 growth of `b`. Fails with `MultiplicationShiftRightOverflow` when the
/// amount does not fit in 64 bits.
pub fn checked_mul_shift_right(a: u128, b: u128) -> (r: Result<u64, ErrorCode>)
    ensures
        a * b < growth_modulus() ==> r == Ok::<u64, ErrorCode>(((a * b) / q64()) as u64),
        a * b >= growth_modulus() ==> r == Err::<u64, ErrorCode>(
            ErrorCode::MultiplicationShiftRightOverflow,
        ),
{
    match a.checked_mul(b) {
        Some(p) => {
            assert(p >> 64u128 == p / 0x1_0000_0000_0000_0000u128) by (bit_vector);
            assert(p / 0x1_0000_0000_0000_0000u128 <= u64::MAX) by (bit_vector);
            Ok((p >> 64u128) as u64)
        },
        None => Err(ErrorCode::MultiplicationShiftRightOverflow),
    }
}

/// Applies a signed liquidity delta to a liquidity amount. Fails with `LiquidityUnderflow`
/// when the result would be negative and with `LiquidityOverflow` when it would not fit
/// in 128 bits.
pub fn add_liquidity_delta(liquidity: u128, delta: i128) -> (r: Result<u128, ErrorCode>)
    ensures
        liquidity + delta < 0 ==> r == Err::<u128, ErrorCode>(ErrorCode::LiquidityUnderflow),
        liquidity + delta > u128::MAX ==> r == Err::<u128, ErrorCode>(
            ErrorCode::LiquidityOverflow,
        ),
        0 <= liquidity + delta <= u128::MAX ==> r == Ok::<u128, ErrorCode>(
            (liquidity + delta) as u128,
        ),
{
    if delta == 0 {
        return Ok(liquidity);
    }
    if delta > 0 {
        match liquidity.checked_add(delta as u128) {
            Some(v) => Ok(v),
            None => Err(ErrorCode::LiquidityOverflow),
        }
    } else {
        let magnitude: u128 = if delta == i128::MIN {
            0x8000_0000_0000_0000_0000_0000_0000_0000u128
        } else {
            (-delta) as u128
        };
        match liquidity.checked_sub(magnitude) {
            Some(v) => Ok(v),
            None => Err(ErrorCode::LiquidityUnderflow),
        }
    }
}

/// Advances a growth accumulator: `a + b` modulo 2^128.
pub fn growth_add(a: u128, b: u128) -> (r: u128)
    ensures
        r == wrap_growth(a + b),
{
    if a <= u128::MAX - b {
        a + b
    } else {
        a - (u128::MAX - b) - 1
    }
}

/// Recovers the growth between two readings of an accumulator: `a - b` modulo 2^128.
pub fn growth_sub(a: u128, b: u128) -> (r: u128)
    ensures
        r == wrap_growth(a - b),
{
    if a >= b {
        a - b
    } else {
        u128::MAX - (b - a) + 1
    }
}

/// Adds to an owed amount: `a + b` modulo 2^64.
pub fn owed_add(a: u64, b: u64) -> (r: u64)
    ensures
        r == (a + b) % owed_modulus(),
{
    if a <= u64::MAX - b {
        a + b
    } else {
        a - (u64::MAX - b) - 1
    }
}

} // verus!
