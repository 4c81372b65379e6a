//! A validated currency code, and an amount of money in a currency.

use crate::decimal::{
    checked_product, checked_quotient, checked_sum, decimal_product, decimal_quotient,
    decimal_sum, lemma_exact_steps_add_percent, lemma_factor_cancels, parse_decimal,
    parsed_decimal, Decimal, DecimalValue,
};
use crate::money::registry::{find_code, in_registry, is_alpha3};
use crate::text::{trimmed, uppercased};
use vstd::prelude::*;

verus! {

/// Why a text is no currency: it is the code of no ISO 4217 currency.
#[derive(Clone, Copy, Debug, PartialEq, Eq, Structural)]
pub struct InvalidCurrencyCode;

/// The three-letter code of an ISO 4217 currency, in upper case.
#[derive(Debug, Hash)]
pub struct CurrencyAlpha3 {
    code: String,
}

impl View for CurrencyAlpha3 {
    type V = Seq<char>;

    closed spec fn view(&self) -> Seq<char> {
        self.code@
    }
}

impl CurrencyAlpha3 {
    #[verifier::type_invariant]
    spec fn registered(self) -> bool {
        in_registry(self.code@) && is_alpha3(self.code@)
    }

    /// The currency whose code is the upper case of `s`.
    pub fn from_str(s: &str) -> (parsed: Result<CurrencyAlpha3, InvalidCurrencyCode>)
        ensures
            parsed is Ok <==> in_registry(uppercased(s@)),
            parsed matches Ok(currency) ==> currency@ == uppercased(s@),
    {
        let upper = s.to_uppercase();
        match find_code(upper.as_str()) {
            Ok(code) => Ok(CurrencyAlpha3 { code }),
            Err(_) => Err(InvalidCurrencyCode),
        }
    }

    /// The code, such as `"USD"`: three capital letters that are the code
    /// of a currency in the registry.
    pub fn code(&self) -> (code: &str)
        ensures
            code@ == self@,
            in_registry(code@),
            is_alpha3(code@),
    {
        proof {
            use_type_invariant(self);
        }
        self.code.as_str()
    }

    /// The code as a text of its own.
    pub fn to_string(&self) -> (code: String)
        ensures
            code@ == self@,
    {
        self.code.clone()
    }
}

impl core::str::FromStr for CurrencyAlpha3 {
    type Err = InvalidCurrencyCode;

    /// The currency whose code is the upper case of `s`, for `str::parse`:
    /// what the method of the same name gives without the trait.
    fn from_str(s: &str) -> (parsed: Result<CurrencyAlpha3, InvalidCurrencyCode>)
        ensures
            parsed is Ok <==> in_registry(uppercased(s@)),
            parsed matches Ok(currency) ==> currency@ == uppercased(s@),
    {
        CurrencyAlpha3::from_str(s)
    }
}

impl Clone for CurrencyAlpha3 {
    fn clone(&self) -> (copy: CurrencyAlpha3)
        ensures
            copy@ == self@,
    {
        proof {
            use_type_invariant(self);
        }
        CurrencyAlpha3 { code: self.code.clone() }
    }
}

impl PartialEq for CurrencyAlpha3 {
    /// Whether both have the same code.
    fn eq(&self, other: &CurrencyAlpha3) -> (equal: bool) {
        self.code == other.code
    }
}

impl vstd::std_specs::cmp::PartialEqSpecImpl for CurrencyAlpha3 {
    open spec fn obeys_eq_spec() -> bool {
        true
    }

    open spec fn eq_spec(&self, other: &CurrencyAlpha3) -> bool {
        self@ == other@
    }
}

impl Eq for CurrencyAlpha3 {

}

/// Why a text is no amount: it is no decimal number.
#[derive(Clone, Copy, Debug, PartialEq, Eq, Structural)]
pub struct InvalidDecimalFormat;

/// What a [`Money`] stands for.
pub ghost struct MoneyValue {
    pub amount: DecimalValue,
    pub currency: Seq<char>,
    /// The rate by which the amount was last derived, if by any.
    pub rate: Option<DecimalValue>,
}

/// The factor for a rate in percent: one plus a hundredth of the rate, where
/// decimal arithmetic has a result for it.
pub open spec fn rate_factor(rate: DecimalValue) -> Option<DecimalValue> {
    match decimal_quotient(rate, DecimalValue::one_hundred()) {
        Some(hundredth) => decimal_sum(DecimalValue::one(), hundredth),
        None => None,
    }
}

impl MoneyValue {
    /// An amount on which no rate is recorded.
    pub open spec fn base(amount: DecimalValue, currency: Seq<char>) -> MoneyValue {
        MoneyValue { amount, currency, rate: None }
    }

    /// The money read from a text: the decimal in the trimmed text, where
    /// there is one.
    pub open spec fn from_text(text: Seq<char>, currency: Seq<char>) -> Option<MoneyValue> {
        match parsed_decimal(trimmed(text)) {
            Some(amount) => Some(MoneyValue::base(amount, currency)),
            None => None,
        }
    }

    /// The amount times the factor of `rate`, with `rate` recorded; `None`
    /// where decimal arithmetic has no result for the factor or the product.
    pub open spec fn with_rate(self, rate: DecimalValue) -> Option<MoneyValue> {
        match rate_factor(rate) {
            Some(factor) => match decimal_product(self.amount, factor) {
                Some(amount) => Some(
                    MoneyValue { amount, currency: self.currency, rate: Some(rate) },
                ),
                None => None,
            },
            None => None,
        }
    }

    /// Whether a rate is recorded that is not zero.
    pub open spec fn has_rate(self) -> bool {
        self.rate matches Some(rate) && !rate.is_zero()
    }

    /// The amount divided by the factor of the recorded rate, with no rate
    /// recorded; `None` where no rate or a rate of zero is recorded, and
    /// where decimal arithmetic has no result for the factor or the quotient.
    pub open spec fn without_rate(self) -> Option<MoneyValue> {
        if self.has_rate() {
            match rate_factor(self.rate->0) {
                Some(factor) => match decimal_quotient(self.amount, factor) {
                    Some(amount) => Some(MoneyValue::base(amount, self.currency)),
                    None => None,
                },
                None => None,
            }
        } else {
            None
        }
    }
}

/// An amount in a currency, with the rate by which it was last derived.
#[derive(Debug)]
pub struct Money {
    amount: Decimal,
    currency: CurrencyAlpha3,
    rate: Option<Decimal>,
}

impl View for Money {
    type V = MoneyValue;

    closed spec fn view(&self) -> MoneyValue {
        MoneyValue {
            amount: self.amount@,
            currency: self.currency@,
            rate: match self.rate {
                Some(rate) => Some(rate@),
                None => None,
            },
        }
    }
}

/// One plus a hundredth of the rate.
fn factor_of(rate: Decimal) -> (factor: Option<Decimal>)
    ensures
        factor is Some <==> rate_factor(rate@) is Some,
        factor matches Some(f) ==> rate_factor(rate@) == Some(f@),
{
    match checked_quotient(rate, Decimal::one_hundred()) {
        Some(hundredth) => checked_sum(Decimal::one(), hundredth),
        None => None,
    }
}

impl Money {
    /// The amount in the currency, with no rate recorded.
    pub fn new(amount: Decimal, currency: CurrencyAlpha3) -> (money: Money)
        ensures
            money@ == MoneyValue::base(amount@, currency@),
    {
        Money { amount, currency, rate: None }
    }

    /// The amount.
    pub fn amount(&self) -> (amount: Decimal)
        ensures
            amount@ == self@.amount,
    {
        self.amount
    }

    /// The currency of the amount.
    pub fn currency(&self) -> (currency: &CurrencyAlpha3)
        ensures
            currency@ == self@.currency,
    {
        &self.currency
    }

    /// The rate by which the amount was last derived, if by any.
    pub fn rate(&self) -> (rate: Option<Decimal>)
        ensures
            rate is Some <==> self@.rate is Some,
            rate matches Some(r) ==> self@.rate == Some(r@),
    {
        self.rate
    }

    /// The same currency with another amount and another record of a rate.
    pub fn with_amount(&self, amount: Decimal, rate: Option<Decimal>) -> (money: Money)
        ensures
            money@.amount == amount@,
            money@.currency == self@.currency,
            money@.rate is Some <==> rate is Some,
            rate matches Some(r) ==> money@.rate == Some(r@),
    {
        Money { amount, currency: self.currency.clone(), rate }
    }

    /// Applies a rate in percent: the amount becomes `amount * (1 + rate / 100)`
    /// and the rate is recorded. A rate may be negative or zero.
    ///
    /// The product has to be one that decimal arithmetic has a result for,
    /// which [`Money::can_apply_rate`] tells; [`Money::checked_apply_rate`]
    /// asks for nothing.
    pub fn apply_rate(&self, rate: Decimal) -> (money: Money)
        requires
            self@.with_rate(rate@) is Some,
        ensures
            Some(money@) == self@.with_rate(rate@),
    {
        let factor = factor_of(rate).unwrap();
        let amount = checked_product(self.amount, factor).unwrap();
        self.with_amount(amount, Some(rate))
    }

    /// Whether decimal arithmetic has a result for `amount * (1 + rate / 100)`.
    pub fn can_apply_rate(&self, rate: Decimal) -> (possible: bool)
        ensures
            possible == self@.with_rate(rate@) is Some,
    {
        match factor_of(rate) {
            Some(factor) => checked_product(self.amount, factor).is_some(),
            None => false,
        }
    }

    /// Applies a rate in percent where decimal arithmetic has a result for
    /// `amount * (1 + rate / 100)`, and gives `None` where it has none.
    pub fn checked_apply_rate(&self, rate: Decimal) -> (applied: Option<Money>)
        ensures
            applied is Some <==> self@.with_rate(rate@) is Some,
            applied matches Some(money) ==> self@.with_rate(rate@) == Some(money@),
    {
        if self.can_apply_rate(rate) {
            Some(self.apply_rate(rate))
        } else {
            None
        }
    }

    /// Reads the amount from a text, around which white space may stand.
    /// A text that is no decimal number is refused, as the empty text is.
    pub fn from_str(amount_str: &str, currency: CurrencyAlpha3) -> (parsed: Result<
        Money,
        InvalidDecimalFormat,
    >)
        ensures
            parsed is Ok <==> MoneyValue::from_text(amount_str@, currency@) is Some,
            parsed matches Ok(money) ==> MoneyValue::from_text(amount_str@, currency@) == Some(
                money@,
            ),
            trimmed(amount_str@).len() == 0 ==> parsed is Err,
    {
        match parse_decimal(amount_str.trim()) {
            Ok(amount) => Ok(Money::new(amount, currency)),
            Err(_) => Err(InvalidDecimalFormat),
        }
    }

    /// Takes the recorded rate back: the amount becomes
    /// `amount / (1 + rate / 100)` and no rate is recorded.
    ///
    /// `None` where no rate is recorded and where the recorded rate is zero;
    /// also where decimal arithmetic has no result for the quotient, as
    /// where the factor is zero.
    pub fn revert_rate(&self) -> (reverted: Option<Money>)
        ensures
            reverted is Some <==> self@.without_rate() is Some,
            reverted matches Some(money) ==> self@.without_rate() == Some(money@),
            !self@.has_rate() ==> reverted is None,
            reverted is Some ==> !rate_factor(self@.rate->0)->0.is_zero(),
    {
        match self.rate {
            Some(rate) => {
                if rate.is_zero() {
                    return None;
                }
                match factor_of(rate) {
                    Some(factor) => match checked_quotient(self.amount, factor) {
                        Some(amount) => Some(self.with_amount(amount, None)),
                        None => None,
                    },
                    None => None,
                }
            },
            None => None,
        }
    }
}

/// Applying a rate to an amount read from a text gives the number read
/// times the factor of the rate, which is one plus a hundredth of the rate:
/// quotient, sum and product each as decimal arithmetic gives them. It
/// keeps the currency and records the rate.
pub proof fn lemma_rate_on_parsed_amount(text: Seq<char>, currency: Seq<char>, rate: DecimalValue)
    requires
        MoneyValue::from_text(text, currency) matches Some(money) && money.with_rate(rate)
            is Some,
    ensures
        ({
            let base = parsed_decimal(trimmed(text))->0;
            let hundredth = decimal_quotient(rate, DecimalValue::one_hundred())->0;
            let factor = decimal_sum(DecimalValue::one(), hundredth)->0;
            let applied = MoneyValue::from_text(text, currency)->0.with_rate(rate)->0;
            &&& Some(applied.amount) == decimal_product(base, factor)
            &&& applied.currency == currency
            &&& applied.rate == Some(rate)
        }),
{
}

/// Applying a rate gives the amount with that many percent added, to the
/// last digit, where no step of the arithmetic was rounded: where the rate
/// is a hundred times the hundredth, the factor is one plus the hundredth,
/// and the new amount is the old one times the factor.
pub proof fn lemma_applied_amount_is_exact(money: MoneyValue, rate: DecimalValue)
    requires
        money.with_rate(rate) is Some,
        ({
            let hundredth = decimal_quotient(rate, DecimalValue::one_hundred())->0;
            let factor = rate_factor(rate)->0;
            let applied = money.with_rate(rate)->0;
            &&& rate.is_product_of(hundredth, DecimalValue::one_hundred())
            &&& factor.is_sum_of(DecimalValue::one(), hundredth)
            &&& applied.amount.is_product_of(money.amount, factor)
        }),
    ensures
        money.with_rate(rate)->0.amount.is_with_percent(money.amount, rate),
{
    let hundredth = decimal_quotient(rate, DecimalValue::one_hundred())->0;
    let factor = rate_factor(rate)->0;
    let applied = money.with_rate(rate)->0;
    lemma_exact_steps_add_percent(money.amount, rate, hundredth, factor, applied.amount);
}

/// Taking back a rate other than zero, just applied, divides by the very
/// factor that applying it multiplied by, keeps the currency and leaves no
/// rate on record. It gives nothing where that division has no result.
pub proof fn lemma_revert_divides_by_applied_factor(money: MoneyValue, rate: DecimalValue)
    requires
        !rate.is_zero(),
        money.with_rate(rate) is Some,
    ensures
        ({
            let factor = rate_factor(rate)->0;
            let applied = money.with_rate(rate)->0;
            &&& Some(applied.amount) == decimal_product(money.amount, factor)
            &&& applied.without_rate() is Some <==> decimal_quotient(applied.amount, factor)
                is Some
            &&& applied.without_rate() matches Some(back) ==> {
                &&& Some(back.amount) == decimal_quotient(applied.amount, factor)
                &&& back.currency == money.currency
                &&& back.rate is None
            }
        }),
{
}

/// Taking back a rate other than zero, just applied, gives the amount back
/// to the last digit, where neither the product nor the quotient was
/// rounded: where the new amount is the old one times the factor, and is
/// what came back times the factor.
pub proof fn lemma_round_trip_is_exact(money: MoneyValue, rate: DecimalValue)
    requires
        !rate.is_zero(),
        money.with_rate(rate) matches Some(applied) && applied.without_rate() is Some,
        ({
            let factor = rate_factor(rate)->0;
            let applied = money.with_rate(rate)->0;
            let back = applied.without_rate()->0;
            &&& !factor.is_zero()
            &&& applied.amount.is_product_of(money.amount, factor)
            &&& applied.amount.is_product_of(back.amount, factor)
        }),
    ensures
        ({
            let back = money.with_rate(rate)->0.without_rate()->0;
            &&& back.amount.same_number(money.amount)
            &&& back.currency == money.currency
            &&& back.rate is None
        }),
{
    let factor = rate_factor(rate)->0;
    let applied = money.with_rate(rate)->0;
    let back = applied.without_rate()->0;
    lemma_factor_cancels(applied.amount, back.amount, money.amount, factor);
}

/// Nothing is taken back from an amount on which no rate was applied.
pub proof fn lemma_base_has_no_rate_to_revert(amount: DecimalValue, currency: Seq<char>)
    ensures
        MoneyValue::base(amount, currency).without_rate() is None,
{
}

/// Nothing is taken back after a rate of zero was applied.
pub proof fn lemma_zero_rate_is_not_reverted(money: MoneyValue, rate: DecimalValue)
    requires
        rate.is_zero(),
        money.with_rate(rate) is Some,
    ensures
        money.with_rate(rate)->0.without_rate() is None,
{
}

impl Clone for Money {
    fn clone(&self) -> (copy: Money)
        ensures
            copy@ == self@,
    {
        Money { amount: self.amount, currency: self.currency.clone(), rate: self.rate }
    }
}

impl PartialEq for Money {
    /// Whether both are the same amount in the same currency, whatever rate
    /// is recorded on either.
    fn eq(&self, other: &Money) -> (equal: bool) {
        self.amount == other.amount && self.currency == other.currency
    }
}

impl vstd::std_specs::cmp::PartialEqSpecImpl for Money {
    open spec fn obeys_eq_spec() -> bool {
        true
    }

    open spec fn eq_spec(&self, other: &Money) -> bool {
        self@.amount.same_number(other@.amount) && self@.currency == other@.currency
    }
}

} // verus!
