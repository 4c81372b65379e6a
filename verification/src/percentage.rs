//! A percentage on an amount, from three texts.

use crate::decimal::{parse_decimal, parsed_decimal, Decimal, DecimalValue};
use crate::money::model::{CurrencyAlpha3, Money, MoneyValue};
use crate::money::registry::in_registry;
use crate::text::{trimmed, uppercased};
use vstd::prelude::*;

verus! {

/// Why no percentage was applied.
#[derive(Clone, Copy, Debug, PartialEq, Eq, Structural)]
pub enum PercentageError {
    /// The text of the currency is the code of no ISO 4217 currency.
    InvalidCurrency,
    /// The text of the base amount is no decimal number.
    InvalidBaseAmount,
    /// The text of the rate is no decimal number.
    InvalidRate,
    /// The result is beyond what a decimal can hold.
    OutOfRange,
}

/// What an outcome stands for: the amount's value and the code's characters.
pub open spec fn outcome_value(outcome: Result<(Decimal, String), PercentageError>) -> Result<
    (DecimalValue, Seq<char>),
    PercentageError,
> {
    match outcome {
        Ok(pair) => Ok((pair.0@, pair.1@)),
        Err(e) => Err(e),
    }
}

/// What [`rate_on`] gives: the new amount and the code of the currency, or
/// the failure of range where decimal arithmetic has no result.
pub open spec fn rate_on_value(money: MoneyValue, rate: DecimalValue) -> Result<
    (DecimalValue, Seq<char>),
    PercentageError,
> {
    match money.with_rate(rate) {
        None => Err(PercentageError::OutOfRange),
        Some(applied) => Ok((applied.amount, applied.currency)),
    }
}

/// What [`apply_rate_str`] gives for three texts: the first of the four
/// failures that occurs, in the order currency, base amount, rate, range;
/// else the new amount and the code of the currency.
pub open spec fn percentage_of(base: Seq<char>, rate: Seq<char>, currency: Seq<char>) -> Result<
    (DecimalValue, Seq<char>),
    PercentageError,
> {
    let code = uppercased(trimmed(currency));
    if !in_registry(code) {
        Err(PercentageError::InvalidCurrency)
    } else {
        match MoneyValue::from_text(base, code) {
            None => Err(PercentageError::InvalidBaseAmount),
            Some(money) => match parsed_decimal(trimmed(rate)) {
                None => Err(PercentageError::InvalidRate),
                Some(percent) => rate_on_value(money, percent),
            },
        }
    }
}

/// The amount of `money` with `rate` percent applied, and the code of its
/// currency; the failure of range where decimal arithmetic has no result.
pub fn rate_on(money: &Money, rate: Decimal) -> (outcome: Result<(Decimal, String), PercentageError>)
    ensures
        outcome_value(outcome) == rate_on_value(money@, rate@),
{
    match money.checked_apply_rate(rate) {
        Some(applied) => Ok((applied.amount(), applied.currency().to_string())),
        None => Err(PercentageError::OutOfRange),
    }
}

/// Applies the rate in `rate_str`, in percent, to the amount in `base_str`,
/// in the currency whose code `currency_str` holds in upper or lower case.
/// White space may stand around each of the three.
pub fn apply_rate_str(base_str: &str, rate_str: &str, currency_str: &str) -> (outcome: Result<
    (Decimal, String),
    PercentageError,
>)
    ensures
        outcome_value(outcome) == percentage_of(base_str@, rate_str@, currency_str@),
{
    let currency = match CurrencyAlpha3::from_str(currency_str.trim()) {
        Ok(currency) => currency,
        Err(_) => {
            return Err(PercentageError::InvalidCurrency);
        },
    };
    let money = match Money::from_str(base_str, currency) {
        Ok(money) => money,
        Err(_) => {
            return Err(PercentageError::InvalidBaseAmount);
        },
    };
    let rate = match parse_decimal(rate_str.trim()) {
        Ok(rate) => rate,
        Err(_) => {
            return Err(PercentageError::InvalidRate);
        },
    };
    rate_on(&money, rate)
}

} // verus!
