//! Checked arithmetic on signed 128-bit amounts and balances.

use vstd::prelude::*;

use crate::types::Error;

verus! {

/// Whether a mathematical integer fits in an `i128`.
pub open spec fn fits_i128(x: int) -> bool {
    i128::MIN <= x <= i128::MAX
}

/// Adds two values; fails with `Overflow` exactly when the sum is not an `i128`.
pub fn safe_add(a: i128, b: i128) -> (r: Result<i128, Error>)
    ensures
        fits_i128(a + b) ==> r == Ok::<i128, Error>((a + b) as i128),
        !fits_i128(a + b) ==> r == Err::<i128, Error>(Error::Overflow),
{
    a.checked_add(b).ok_or(Error::Overflow)
}

/// Subtracts `b` from `a`; fails with `Underflow` exactly when the difference is not an `i128`.
pub fn safe_sub(a: i128, b: i128) -> (r: Result<i128, Error>)
    ensures
        fits_i128(a - b) ==> r == Ok::<i128, Error>((a - b) as i128),
        !fits_i128(a - b) ==> r == Err::<i128, Error>(Error::Underflow),
{
    a.checked_sub(b).ok_or(Error::Underflow)
}

/// The outcome of validating that an amount is non-negative.
pub open spec fn validate_non_negative_spec(amount: i128) -> Result<(), Error> {
    if amount < 0 {
        Err(Error::Underflow)
    } else {
        Ok(())
    }
}

/// Accepts a non-negative amount; rejects a negative one with `Underflow`.
pub fn validate_non_negative(amount: i128) -> (r: Result<(), Error>)
    ensures
        r == validate_non_negative_spec(amount),
{
    if amount < 0 {
        Err(Error::Underflow)
    } else {
        Ok(())
    }
}

/// The outcome of adding `amount` to `balance`: never a negative balance.
pub open spec fn add_balance_spec(balance: int, amount: int) -> Result<i128, Error> {
    if amount < 0 || balance < 0 {
        Err(Error::Underflow)
    } else if balance + amount > i128::MAX {
        Err(Error::Overflow)
    } else {
        Ok((balance + amount) as i128)
    }
}

/// The outcome of subtracting `amount` from `balance`: never a negative balance.
pub open spec fn sub_balance_spec(balance: int, amount: int) -> Result<i128, Error> {
    if amount < 0 || balance - amount < 0 {
        Err(Error::Underflow)
    } else {
        Ok((balance - amount) as i128)
    }
}

/// Adds a non-negative `amount` to a non-negative `balance`.
///
/// Fails with `Underflow` on a negative amount or a negative balance, and with
/// `Overflow` when the sum exceeds `i128::MAX`: a successful result is never
/// negative.
pub fn safe_add_balance(balance: i128, amount: i128) -> (r: Result<i128, Error>)
    ensures
        r == add_balance_spec(balance as int, amount as int),
        r matches Ok(v) ==> v >= balance && v >= 0,
{
    validate_non_negative(amount)?;
    validate_non_negative(balance)?;
    safe_add(balance, amount)
}

/// Subtracts a non-negative `amount` from `balance`.
///
/// Fails with `Underflow` on a negative amount and on any result below zero:
/// a successful result is never negative.
pub fn safe_sub_balance(balance: i128, amount: i128) -> (r: Result<i128, Error>)
    ensures
        r == sub_balance_spec(balance as int, amount as int),
        r matches Ok(v) ==> 0 <= v <= balance,
{
    validate_non_negative(amount)?;
    let result = safe_sub(balance, amount)?;
    if result < 0 {
        Err(Error::Underflow)
    } else {
        Ok(result)
    }
}

/// Checked balance arithmetic never yields a negative balance from a subtraction,
/// and never wraps: each success is the exact mathematical result.
pub proof fn lemma_balance_arithmetic_exact(balance: i128, amount: i128)
    ensures
        sub_balance_spec(balance as int, amount as int) matches Ok(v) ==> v >= 0 && v == balance
            - amount,
        add_balance_spec(balance as int, amount as int) matches Ok(v) ==> v >= 0 && v == balance
            + amount,
{
}

} // verus!
