//! Currency units and the exact conversions between them.

use vstd::prelude::*;
use crate::error::Error;

verus! {

/// Number of millisatoshis in one satoshi.
pub const MSAT_IN_SAT: u64 = 1000;

/// Unit in which an amount is expressed.
#[derive(Clone, Copy, Debug, PartialEq, Eq, Structural, Hash)]
pub enum CurrencyUnit {
    /// Satoshi.
    Sat,
    /// Millisatoshi.
    Msat,
    /// US dollar cent.
    Usd,
    /// Euro cent.
    Eur,
}

/// Whether amounts in `from` can be expressed in `to`: a unit converts to itself,
/// and the two bitcoin units convert to each other.
pub open spec fn convertible(from: CurrencyUnit, to: CurrencyUnit) -> bool {
    from == to || (from is Sat && to is Msat) || (from is Msat && to is Sat)
}

/// The amount `amount` of unit `from`, expressed in unit `to`. Millisatoshis that
/// do not make a whole satoshi are dropped.
pub open spec fn converted(amount: u64, from: CurrencyUnit, to: CurrencyUnit) -> int {
    if from is Sat && to is Msat {
        amount * 1000
    } else if from is Msat && to is Sat {
        amount as int / 1000
    } else {
        amount as int
    }
}

/// What [`to_unit`] returns.
pub open spec fn to_unit_spec(amount: u64, from: CurrencyUnit, to: CurrencyUnit) -> Result<
    u64,
    Error,
> {
    if !convertible(from, to) {
        Err(Error::CannotConvertUnits)
    } else if converted(amount, from, to) > u64::MAX {
        Err(Error::AmountOverflow)
    } else {
        Ok(converted(amount, from, to) as u64)
    }
}

/// Expresses `amount`, given in `current_unit`, in `target_unit`.
///
/// Fails with [`Error::CannotConvertUnits`] if the pair of units has no
/// conversion, and with [`Error::AmountOverflow`] if the result exceeds `u64`.
pub fn to_unit(amount: u64, current_unit: CurrencyUnit, target_unit: CurrencyUnit) -> (r: Result<
    u64,
    Error,
>)
    ensures
        r == to_unit_spec(amount, current_unit, target_unit),
{
    match (current_unit, target_unit) {
        (CurrencyUnit::Sat, CurrencyUnit::Sat) => Ok(amount),
        (CurrencyUnit::Msat, CurrencyUnit::Msat) => Ok(amount),
        (CurrencyUnit::Usd, CurrencyUnit::Usd) => Ok(amount),
        (CurrencyUnit::Eur, CurrencyUnit::Eur) => Ok(amount),
        (CurrencyUnit::Sat, CurrencyUnit::Msat) => match amount.checked_mul(MSAT_IN_SAT) {
            Some(msat) => Ok(msat),
            None => Err(Error::AmountOverflow),
        },
        (CurrencyUnit::Msat, CurrencyUnit::Sat) => Ok(amount / MSAT_IN_SAT),
        _ => Err(Error::CannotConvertUnits),
    }
}

/// Whole satoshis in a signed millisatoshi amount reported by the node. The node
/// reports amounts as signed integers; one below zero counts as nothing.
pub open spec fn sats_of_msat(msat: i64) -> u64 {
    if msat <= 0 {
        0
    } else {
        (msat as int / 1000) as u64
    }
}

/// Computes [`sats_of_msat`].
pub fn msat_to_sat(msat: i64) -> (sat: u64)
    ensures
        sat == sats_of_msat(msat),
{
    if msat <= 0 {
        0
    } else {
        (msat / 1000) as u64
    }
}

/// A sum of signed satoshi amounts reported by the node, as an unsigned amount.
/// A sum below zero counts as nothing.
pub open spec fn sats_spent(value_sat: i64, fee_sat: i64) -> u64 {
    if value_sat + fee_sat <= 0 {
        0
    } else {
        (value_sat + fee_sat) as u64
    }
}

/// Computes [`sats_spent`].
pub fn total_sats(value_sat: i64, fee_sat: i64) -> (total: u64)
    ensures
        total == sats_spent(value_sat, fee_sat),
{
    let sum: i128 = value_sat as i128 + fee_sat as i128;
    if sum <= 0 {
        0
    } else {
        sum as u64
    }
}

/// An unsigned amount as the signed integer that the node's requests carry.
pub open spec fn to_signed_spec(amount: u64) -> Result<i64, Error> {
    if amount <= i64::MAX {
        Ok(amount as i64)
    } else {
        Err(Error::AmountOverflow)
    }
}

/// Converts an amount to the signed integer that the node's requests carry. Fails
/// with [`Error::AmountOverflow`] if it does not fit.
pub fn to_signed(amount: u64) -> (r: Result<i64, Error>)
    ensures
        r == to_signed_spec(amount),
{
    if amount <= 0x7fff_ffff_ffff_ffff {
        Ok(amount as i64)
    } else {
        Err(Error::AmountOverflow)
    }
}

} // verus!
