//! Overflow-checked integer arithmetic on monetary quantities.
//!
//! Every operation either returns the exact mathematical result or fails with
//! `LaunchpadError::MathOverflow`; nothing wraps silently.

use vstd::prelude::*;

use crate::error::LaunchpadError;

verus! {

/// `a / b` rounded up, for `a >= 0` and `b > 0`.
pub open spec fn ceil_div(a: int, b: int) -> int {
    (a + b - 1) / b
}

/// `10` raised to `n`.
pub open spec fn pow10(n: nat) -> nat
    decreases n,
{
    if n == 0 {
        1
    } else {
        10 * pow10((n - 1) as nat)
    }
}

pub fn checked_add(a: u64, b: u64) -> (r: Result<u64, LaunchpadError>)
    ensures
        r == (if a + b <= u64::MAX { Ok((a + b) as u64) } else { Err(LaunchpadError::MathOverflow) }),
{
    match a.checked_add(b) {
        Some(v) => Ok(v),
        None => Err(LaunchpadError::MathOverflow),
    }
}

pub fn checked_sub(a: u64, b: u64) -> (r: Result<u64, LaunchpadError>)
    ensures
        r == (if a >= b { Ok((a - b) as u64) } else { Err(LaunchpadError::MathOverflow) }),
{
    match a.checked_sub(b) {
        Some(v) => Ok(v),
        None => Err(LaunchpadError::MathOverflow),
    }
}

pub fn checked_mul(a: u64, b: u64) -> (r: Result<u64, LaunchpadError>)
    ensures
        r == (if a * b <= u64::MAX { Ok((a * b) as u64) } else { Err(LaunchpadError::MathOverflow) }),
{
    match a.checked_mul(b) {
        Some(v) => Ok(v),
        None => Err(LaunchpadError::MathOverflow),
    }
}

/// Division rounding down; a zero divisor is reported as an overflow.
pub fn checked_div(a: u64, b: u64) -> (r: Result<u64, LaunchpadError>)
    ensures
        r == (if b > 0 { Ok((a / b) as u64) } else { Err(LaunchpadError::MathOverflow) }),
{
    if b == 0 {
        Err(LaunchpadError::MathOverflow)
    } else {
        Ok(a / b)
    }
}

/// Division rounding up. It never overflows: only a zero divisor fails.
pub fn checked_ceil_div(a: u64, b: u64) -> (r: Result<u64, LaunchpadError>)
    ensures
        r == (if b > 0 { Ok(ceil_div(a as int, b as int) as u64) } else { Err(LaunchpadError::MathOverflow) }),
        b > 0 ==> ceil_div(a as int, b as int) <= a,
{
    if b == 0 {
        return Err(LaunchpadError::MathOverflow);
    }
    proof {
        lemma_ceil_div_bounds(a as int, b as int);
    }
    if a == 0 {
        Ok(0)
    } else {
        Ok((a - 1) / b + 1)
    }
}

pub fn checked_add_u128(a: u128, b: u128) -> (r: Result<u128, LaunchpadError>)
    ensures
        r == (if a + b <= u128::MAX { Ok((a + b) as u128) } else { Err(LaunchpadError::MathOverflow) }),
{
    match a.checked_add(b) {
        Some(v) => Ok(v),
        None => Err(LaunchpadError::MathOverflow),
    }
}

pub fn checked_mul_u128(a: u128, b: u128) -> (r: Result<u128, LaunchpadError>)
    ensures
        r == (if a * b <= u128::MAX { Ok((a * b) as u128) } else { Err(LaunchpadError::MathOverflow) }),
{
    match a.checked_mul(b) {
        Some(v) => Ok(v),
        None => Err(LaunchpadError::MathOverflow),
    }
}

/// Division rounding up on `u128`; only a zero divisor fails.
pub fn checked_ceil_div_u128(a: u128, b: u128) -> (r: Result<u128, LaunchpadError>)
    ensures
        r == (if b > 0 { Ok(ceil_div(a as int, b as int) as u128) } else { Err(LaunchpadError::MathOverflow) }),
{
    if b == 0 {
        return Err(LaunchpadError::MathOverflow);
    }
    proof {
        lemma_ceil_div_bounds(a as int, b as int);
    }
    if a == 0 {
        Ok(0)
    } else {
        Ok((a - 1) / b + 1)
    }
}

/// Narrows a `u128` to `u64`, failing where it does not fit.
pub fn checked_as_u64(v: u128) -> (r: Result<u64, LaunchpadError>)
    ensures
        r == (if v <= u64::MAX { Ok(v as u64) } else { Err(LaunchpadError::MathOverflow) }),
{
    if v <= u64::MAX as u128 {
        Ok(v as u64)
    } else {
        Err(LaunchpadError::MathOverflow)
    }
}

pub fn checked_add_i64(a: i64, b: i64) -> (r: Result<i64, LaunchpadError>)
    ensures
        r == (if i64::MIN <= a + b <= i64::MAX { Ok((a + b) as i64) } else { Err(LaunchpadError::MathOverflow) }),
{
    match a.checked_add(b) {
        Some(v) => Ok(v),
        None => Err(LaunchpadError::MathOverflow),
    }
}

pub fn checked_sub_i64(a: i64, b: i64) -> (r: Result<i64, LaunchpadError>)
    ensures
        r == (if i64::MIN <= a - b <= i64::MAX { Ok((a - b) as i64) } else { Err(LaunchpadError::MathOverflow) }),
{
    match a.checked_sub(b) {
        Some(v) => Ok(v),
        None => Err(LaunchpadError::MathOverflow),
    }
}

/// `(a - 1) / b + 1` is the rounded-up quotient, and it never exceeds `a`.
pub proof fn lemma_ceil_div_bounds(a: int, b: int)
    requires
        a >= 0,
        b > 0,
    ensures
        a == 0 ==> ceil_div(a, b) == 0,
        a > 0 ==> ceil_div(a, b) == (a - 1) / b + 1,
        ceil_div(a, b) <= a,
        ceil_div(a, b) * b >= a,
        a > 0 ==> (ceil_div(a, b) - 1) * b < a,
{
    let q = ceil_div(a, b);
    vstd::arithmetic::div_mod::lemma_fundamental_div_mod(a + b - 1, b);
    vstd::arithmetic::div_mod::lemma_mod_bound(a + b - 1, b);
    if a == 0 {
        vstd::arithmetic::div_mod::lemma_small_div_converse(b - 1, b);
        assert(q == 0) by {
            vstd::arithmetic::div_mod::lemma_basic_div(b - 1, b);
        }
    } else {
        vstd::arithmetic::div_mod::lemma_div_plus_one(a - 1, b);
        assert((b + (a - 1)) / b == (a - 1) / b + 1);
        vstd::arithmetic::div_mod::lemma_div_is_ordered_by_denominator(a - 1, 1, b);
        vstd::arithmetic::div_mod::lemma_div_basics(a - 1);
    }
    assert(q * b >= a) by (nonlinear_arith)
        requires
            (a + b - 1) == b * q + (a + b - 1) % b,
            0 <= (a + b - 1) % b < b,
    ;
    if a > 0 {
        assert((q - 1) * b < a) by (nonlinear_arith)
            requires
                (a + b - 1) == b * q + (a + b - 1) % b,
                0 <= (a + b - 1) % b < b,
        ;
    }
}

/// A larger power of ten is never smaller.
pub proof fn lemma_pow10_monotone(i: nat, n: nat)
    requires
        i <= n,
    ensures
        pow10(i) <= pow10(n),
        pow10(n) >= 1,
    decreases n,
{
    if n > 0 {
        if i < n {
            lemma_pow10_monotone(i, (n - 1) as nat);
        } else {
            lemma_pow10_monotone(0, (n - 1) as nat);
        }
    }
}

/// `10^n` on `u128`, failing where it does not fit.
pub fn checked_pow10(n: u64) -> (r: Result<u128, LaunchpadError>)
    ensures
        r == (if pow10(n as nat) <= u128::MAX {
            Ok(pow10(n as nat) as u128)
        } else {
            Err(LaunchpadError::MathOverflow)
        }),
{
    let mut r: u128 = 1;
    let mut i: u64 = 0;
    while i < n
        invariant
            i <= n,
            r == pow10(i as nat),
        decreases n - i,
    {
        match r.checked_mul(10) {
            Some(v) => {
                r = v;
            },
            None => {
                proof {
                    lemma_pow10_monotone((i + 1) as nat, n as nat);
                }
                return Err(LaunchpadError::MathOverflow);
            },
        }
        i = i + 1;
    }
    Ok(r)
}

/// `a * 10^ea * b * 10^eb` expressed with exponent `eo`, rounded up where the
/// scaling divides, failing where an intermediate does not fit in `u128` or
/// the result in `u64`.
pub open spec fn decimal_ceil_mul(a: u64, ea: i32, b: u64, eb: i32, eo: i32) -> Result<u64, LaunchpadError> {
    decimal_mul_rounded(a, ea, b, eb, eo, true)
}

/// As `decimal_ceil_mul`, rounding down.
pub open spec fn decimal_mul(a: u64, ea: i32, b: u64, eb: i32, eo: i32) -> Result<u64, LaunchpadError> {
    decimal_mul_rounded(a, ea, b, eb, eo, false)
}

pub open spec fn decimal_mul_rounded(a: u64, ea: i32, b: u64, eb: i32, eo: i32, up: bool) -> Result<u64, LaunchpadError> {
    let p = ea + eb - eo;
    let k: nat = if p >= 0 { p as nat } else { (-p) as nat };
    let product = a * b;
    if a == 0 || b == 0 {
        Ok(0)
    } else if pow10(k) > u128::MAX {
        Err(LaunchpadError::MathOverflow)
    } else {
        let v = if p >= 0 {
            product * pow10(k)
        } else if up {
            ceil_div(product, pow10(k) as int)
        } else {
            product / (pow10(k) as int)
        };
        if v > u128::MAX || v > u64::MAX {
            Err(LaunchpadError::MathOverflow)
        } else {
            Ok(v as u64)
        }
    }
}

fn decimal_mul_impl(a: u64, ea: i32, b: u64, eb: i32, eo: i32, up: bool) -> (r: Result<u64, LaunchpadError>)
    ensures
        r == decimal_mul_rounded(a, ea, b, eb, eo, up),
{
    if a == 0 || b == 0 {
        return Ok(0);
    }
    let p: i64 = ea as i64 + eb as i64 - eo as i64;
    let k: u64 = if p >= 0 { p as u64 } else { (-p) as u64 };
    let scale = checked_pow10(k)?;
    proof {
        vstd::arithmetic::mul::lemma_mul_upper_bound(a as int, u64::MAX as int, b as int, u64::MAX as int);
        lemma_pow10_monotone(0, k as nat);
    }
    let product: u128 = a as u128 * b as u128;
    if p >= 0 {
        checked_as_u64(checked_mul_u128(product, scale)?)
    } else if up {
        proof {
            lemma_ceil_div_bounds(product as int, scale as int);
        }
        checked_as_u64(checked_ceil_div_u128(product, scale)?)
    } else {
        proof {
            vstd::arithmetic::div_mod::lemma_div_is_ordered_by_denominator(product as int, 1, scale as int);
        }
        checked_as_u64(product / scale)
    }
}

/// `a * 10^ea * b * 10^eb` expressed with exponent `eo`, rounded up.
pub fn checked_decimal_ceil_mul(a: u64, ea: i32, b: u64, eb: i32, eo: i32) -> (r: Result<u64, LaunchpadError>)
    ensures
        r == decimal_ceil_mul(a, ea, b, eb, eo),
{
    decimal_mul_impl(a, ea, b, eb, eo, true)
}

/// `a * 10^ea * b * 10^eb` expressed with exponent `eo`, rounded down.
pub fn checked_decimal_mul(a: u64, ea: i32, b: u64, eb: i32, eo: i32) -> (r: Result<u64, LaunchpadError>)
    ensures
        r == decimal_mul(a, ea, b, eb, eo),
{
    decimal_mul_impl(a, ea, b, eb, eo, false)
}

} // verus!
