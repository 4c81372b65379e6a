//! Fixed-precision decimal numbers.
//!
//! A [`Decimal`] is the number `mantissa / 10^scale`, with a mantissa of at
//! most 96 bits and at most 28 fractional digits. The arithmetic on them is
//! that of the `rust_decimal` crate.

use vstd::arithmetic::power::{
    lemma_pow0, lemma_pow1, lemma_pow_adds, lemma_pow_increases, lemma_pow_positive, pow,
};
use vstd::prelude::*;

verus! {

/// The largest magnitude of a mantissa: `2^96 - 1`.
pub const MAX_MANTISSA: i128 = 79_228_162_514_264_337_593_543_950_335;

/// The largest number of fractional digits.
pub const MAX_SCALE: u32 = 28;

/// What a decimal stands for: the number `mantissa / 10^scale`.
pub ghost struct DecimalValue {
    pub mantissa: int,
    pub scale: nat,
}

impl DecimalValue {
    /// Whether a [`Decimal`] can hold this mantissa and scale.
    pub open spec fn representable(self) -> bool {
        &&& -MAX_MANTISSA <= self.mantissa <= MAX_MANTISSA
        &&& self.scale <= MAX_SCALE
    }

    /// Whether both stand for the same number, whatever their scales:
    /// `1.50` and `1.5` do.
    pub open spec fn same_number(self, other: DecimalValue) -> bool {
        self.mantissa * pow(10, other.scale) == other.mantissa * pow(10, self.scale)
    }

    /// Whether this is the number zero, at whatever scale.
    pub open spec fn is_zero(self) -> bool {
        self.mantissa == 0
    }

    /// Whether this is the product of the two numbers, to the last digit.
    pub open spec fn is_product_of(self, left: DecimalValue, right: DecimalValue) -> bool {
        self.mantissa * pow(10, left.scale + right.scale) == left.mantissa * right.mantissa * pow(
            10,
            self.scale,
        )
    }

    /// Whether this is the sum of the two numbers, to the last digit.
    pub open spec fn is_sum_of(self, left: DecimalValue, right: DecimalValue) -> bool {
        self.mantissa * pow(10, left.scale + right.scale) == (left.mantissa * pow(10, right.scale)
            + right.mantissa * pow(10, left.scale)) * pow(10, self.scale)
    }

    /// Whether this is `base` with `rate` percent added, to the last digit:
    /// `base * (100 + rate) / 100`.
    pub open spec fn is_with_percent(self, base: DecimalValue, rate: DecimalValue) -> bool {
        self.mantissa * 100 * pow(10, base.scale + rate.scale) == base.mantissa * (100 * pow(
            10,
            rate.scale,
        ) + rate.mantissa) * pow(10, self.scale)
    }

    /// The number one, without fractional digits.
    pub open spec fn one() -> DecimalValue {
        DecimalValue { mantissa: 1, scale: 0 }
    }

    /// The number one hundred, without fractional digits.
    pub open spec fn one_hundred() -> DecimalValue {
        DecimalValue { mantissa: 100, scale: 0 }
    }
}

/// A decimal number of at most 96 bits of mantissa and 28 fractional digits.
#[derive(Clone, Copy, Debug)]
pub struct Decimal {
    mantissa: i128,
    scale: u32,
}

impl View for Decimal {
    type V = DecimalValue;

    closed spec fn view(&self) -> DecimalValue {
        DecimalValue { mantissa: self.mantissa as int, scale: self.scale as nat }
    }
}

impl Decimal {
    #[verifier::type_invariant]
    spec fn in_range(self) -> bool {
        &&& -MAX_MANTISSA <= self.mantissa <= MAX_MANTISSA
        &&& self.scale <= MAX_SCALE
    }

    /// The number `num / 10^scale`, for a scale of at most 28.
    pub fn new(num: i64, scale: u32) -> (d: Decimal)
        requires
            scale <= MAX_SCALE,
        ensures
            d@ == (DecimalValue { mantissa: num as int, scale: scale as nat }),
    {
        Decimal { mantissa: num as i128, scale }
    }

    /// The number `num / 10^scale`, or `None` for a scale of more than 28.
    pub fn try_new(num: i64, scale: u32) -> (d: Option<Decimal>)
        ensures
            d is Some <==> scale <= MAX_SCALE,
            d matches Some(v) ==> v@ == (DecimalValue { mantissa: num as int, scale: scale as nat }),
    {
        if scale <= MAX_SCALE {
            Some(Decimal::new(num, scale))
        } else {
            None
        }
    }

    /// The digits of the number as a whole number with its sign.
    pub fn mantissa(&self) -> (m: i128)
        ensures
            m == self@.mantissa,
            -MAX_MANTISSA <= m <= MAX_MANTISSA,
    {
        proof {
            use_type_invariant(self);
        }
        self.mantissa
    }

    /// How many of the digits are fractional.
    pub fn scale(&self) -> (s: u32)
        ensures
            s == self@.scale,
            s <= MAX_SCALE,
    {
        proof {
            use_type_invariant(self);
        }
        self.scale
    }

    /// Whether this is the number zero, at whatever scale.
    pub fn is_zero(&self) -> (z: bool)
        ensures
            z == self@.is_zero(),
    {
        self.mantissa == 0
    }

    /// The number one, without fractional digits.
    pub fn one() -> (d: Decimal)
        ensures
            d@ == DecimalValue::one(),
    {
        Decimal { mantissa: 1, scale: 0 }
    }

    /// The number one hundred, without fractional digits.
    pub fn one_hundred() -> (d: Decimal)
        ensures
            d@ == DecimalValue::one_hundred(),
    {
        Decimal { mantissa: 100, scale: 0 }
    }

    /// Whether `mantissa * 10^exponent` is `target`.
    fn scaled_equals(mantissa: i128, exponent: u32, target: i128) -> (equal: bool)
        requires
            -MAX_MANTISSA <= mantissa <= MAX_MANTISSA,
            -MAX_MANTISSA <= target <= MAX_MANTISSA,
        ensures
            equal == (mantissa * pow(10, exponent as nat) == target),
    {
        let mut scaled: i128 = mantissa;
        let mut done: u32 = 0;
        proof {
            lemma_pow0(10);
        }
        while done < exponent
            invariant
                done <= exponent,
                -MAX_MANTISSA <= scaled <= MAX_MANTISSA,
                -MAX_MANTISSA <= target <= MAX_MANTISSA,
                scaled == mantissa * pow(10, done as nat),
            decreases exponent - done,
        {
            if scaled > MAX_MANTISSA / 10 || scaled < -(MAX_MANTISSA / 10) {
                proof {
                    lemma_scaling_grows(mantissa as int, done as nat, exponent as nat);
                }
                return false;
            }
            proof {
                lemma_pow_step(mantissa as int, done as nat);
            }
            scaled = scaled * 10;
            done = done + 1;
        }
        scaled == target
    }
}

impl PartialEq for Decimal {
    /// Whether both are the same number: `1.50 == 1.5`.
    fn eq(&self, other: &Decimal) -> (equal: bool) {
        proof {
            use_type_invariant(self);
            use_type_invariant(other);
        }
        if self.scale <= other.scale {
            proof {
                lemma_same_number_by_scaling(self@, other@);
            }
            Decimal::scaled_equals(self.mantissa, other.scale - self.scale, other.mantissa)
        } else {
            proof {
                lemma_same_number_by_scaling(other@, self@);
            }
            Decimal::scaled_equals(other.mantissa, self.scale - other.scale, self.mantissa)
        }
    }
}

impl vstd::std_specs::cmp::PartialEqSpecImpl for Decimal {
    open spec fn obeys_eq_spec() -> bool {
        true
    }

    open spec fn eq_spec(&self, other: &Decimal) -> bool {
        self@.same_number(other@)
    }
}

impl Eq for Decimal {

}

/// Being the same number is an equivalence: it holds of a number and
/// itself, in both directions or in none, and through a third number.
pub proof fn lemma_same_number_equivalence(a: DecimalValue, b: DecimalValue, c: DecimalValue)
    ensures
        a.same_number(a),
        a.same_number(b) <==> b.same_number(a),
        a.same_number(b) && b.same_number(c) ==> a.same_number(c),
{
    if a.same_number(b) && b.same_number(c) {
        let ea = pow(10, a.scale);
        let eb = pow(10, b.scale);
        let ec = pow(10, c.scale);
        let (x, y, z) = (a.mantissa, b.mantissa, c.mantissa);
        lemma_pow_positive(10, b.scale);
        assert((x * ec) * eb == (x * eb) * ec) by (nonlinear_arith);
        assert((y * ea) * ec == (y * ec) * ea) by (nonlinear_arith);
        assert((z * eb) * ea == (z * ea) * eb) by (nonlinear_arith);
        assert((x * ec) * eb == (z * ea) * eb);
        assert(x * ec == z * ea) by (nonlinear_arith)
            requires
                (x * ec) * eb == (z * ea) * eb,
                eb > 0,
        ;
    }
}

/// If a number times a factor other than zero is also another number times
/// that factor, the two are the same number.
pub proof fn lemma_factor_cancels(
    product: DecimalValue,
    first: DecimalValue,
    second: DecimalValue,
    factor: DecimalValue,
)
    requires
        !factor.is_zero(),
        product.is_product_of(first, factor),
        product.is_product_of(second, factor),
    ensures
        first.same_number(second),
{
    let p = product.mantissa;
    let a = first.mantissa;
    let b = second.mantissa;
    let f = factor.mantissa;
    let ea = pow(10, first.scale);
    let eb = pow(10, second.scale);
    let ef = pow(10, factor.scale);
    let ep = pow(10, product.scale);
    lemma_pow_adds(10, first.scale, factor.scale);
    lemma_pow_adds(10, second.scale, factor.scale);
    lemma_pow_positive(10, factor.scale);
    lemma_pow_positive(10, product.scale);
    let common = f * ep;
    assert(common != 0) by (nonlinear_arith)
        requires
            common == f * ep,
            f != 0,
            ep > 0,
    ;
    // The product is a * f and b * f: brought to one denominator, the two agree.
    assert((p * (ea * ef)) * eb == (p * (eb * ef)) * ea) by (nonlinear_arith);
    assert((a * f * ep) * eb == (a * eb) * (f * ep)) by (nonlinear_arith);
    assert((b * f * ep) * ea == (b * ea) * (f * ep)) by (nonlinear_arith);
    assert((a * eb) * common == (b * ea) * common);
    assert(a * eb == b * ea) by (nonlinear_arith)
        requires
            (a * eb) * common == (b * ea) * common,
            common != 0,
    ;
}

/// If the rate is a hundred times `hundredth`, `factor` is one plus
/// `hundredth`, and `product` is `base` times `factor`, each to the last
/// digit, then `product` is `base` with `rate` percent added.
pub proof fn lemma_exact_steps_add_percent(
    base: DecimalValue,
    rate: DecimalValue,
    hundredth: DecimalValue,
    factor: DecimalValue,
    product: DecimalValue,
)
    requires
        rate.is_product_of(hundredth, DecimalValue::one_hundred()),
        factor.is_sum_of(DecimalValue::one(), hundredth),
        product.is_product_of(base, factor),
    ensures
        product.is_with_percent(base, rate),
{
    let (b, r, h, f, p) = (
        base.mantissa,
        rate.mantissa,
        hundredth.mantissa,
        factor.mantissa,
        product.mantissa,
    );
    let eb = pow(10, base.scale);
    let er = pow(10, rate.scale);
    let eh = pow(10, hundredth.scale);
    let ef = pow(10, factor.scale);
    let ep = pow(10, product.scale);
    lemma_pow0(10);
    lemma_pow_adds(10, hundredth.scale, 0);
    lemma_pow_adds(10, 0, hundredth.scale);
    lemma_pow_adds(10, base.scale, factor.scale);
    lemma_pow_adds(10, base.scale, rate.scale);
    lemma_pow_positive(10, hundredth.scale);
    lemma_pow_positive(10, factor.scale);
    // What is known, with the powers of ten by their names.
    assert(r * eh == h * 100 * er);
    assert(f * eh == (eh + h) * ef) by (nonlinear_arith)
        requires
            f * eh == (1 * eh + h * 1) * ef,
    ;
    assert(p * (eb * ef) == b * f * ep);
    // Both sides of the claim, times eh * ef, are 100 * er * b * ep * ef * (eh + h).
    let left = p * 100 * (eb * er);
    let right = b * (100 * er + r) * ep;
    let common = (100 * er) * (b * ep) * ((eh + h) * ef);
    assert(left * (eh * ef) == (100 * er) * eh * (p * (eb * ef))) by (nonlinear_arith)
        requires
            left == p * 100 * (eb * er),
    ;
    assert((100 * er) * eh * (b * f * ep) == (100 * er) * (b * ep) * (f * eh))
        by (nonlinear_arith);
    assert(left * (eh * ef) == common);
    assert(right * (eh * ef) == (b * ep) * ef * (100 * er * eh + r * eh)) by (nonlinear_arith)
        requires
            right == b * (100 * er + r) * ep,
    ;
    assert((b * ep) * ef * (100 * er * eh + h * 100 * er) == (100 * er) * (b * ep) * ((eh + h)
        * ef)) by (nonlinear_arith);
    assert(right * (eh * ef) == common);
    assert(left == right) by (nonlinear_arith)
        requires
            left * (eh * ef) == right * (eh * ef),
            eh > 0,
            ef > 0,
    ;
}

/// The error of `rust_decimal`, which says why a text is no decimal.
#[verifier::external_type_specification]
#[verifier::external_body]
pub struct ExDecimalError(rust_decimal::Error);

/// The decimal that `rust_decimal` reads from a text, where it reads one.
pub uninterp spec fn parsed_decimal(text: Seq<char>) -> Option<DecimalValue>;

/// The quotient that `rust_decimal` computes, where it computes one.
pub uninterp spec fn decimal_quotient(dividend: DecimalValue, divisor: DecimalValue) -> Option<
    DecimalValue,
>;

/// The sum that `rust_decimal` computes, where it computes one.
pub uninterp spec fn decimal_sum(left: DecimalValue, right: DecimalValue) -> Option<DecimalValue>;

/// The product that `rust_decimal` computes, where it computes one.
pub uninterp spec fn decimal_product(left: DecimalValue, right: DecimalValue) -> Option<
    DecimalValue,
>;

/// Reads a decimal with `rust_decimal`'s `FromStr` for its `Decimal`.
///
/// Not proved: that the outcome depends on the text alone, which
/// [`parsed_decimal`] names; that what was read is in the range of a
/// decimal; and that the empty text is no decimal. The parser takes a sign,
/// digits, one point and underscores between digits, rounds what is beyond
/// 28 fractional digits, and falls back to scientific notation; none of
/// that is stated here.
#[verifier::external_body]
pub(crate) fn parse_decimal(text: &str) -> (parsed: Result<Decimal, rust_decimal::Error>)
    ensures
        parsed is Ok <==> parsed_decimal(text@) is Some,
        parsed matches Ok(d) ==> parsed_decimal(text@) == Some(d@) && d@.representable(),
        text@.len() == 0 ==> parsed is Err,
{
    match text.parse::<rust_decimal::Decimal>() {
        Ok(d) => Ok(Decimal { mantissa: d.mantissa(), scale: d.scale() }),
        Err(e) => Err(e),
    }
}

/// Divides with `rust_decimal::Decimal::checked_div`, which gives `None` for
/// a zero divisor and for a quotient out of range.
///
/// Not proved: that the outcome depends on the two numbers alone, which
/// [`decimal_quotient`] names; that a quotient is in the range of a decimal;
/// and that there is none for a divisor of zero. How the quotient is rounded
/// is not stated. Both arguments are in range, as every [`Decimal`] is, so
/// `from_i128_with_scale` takes them.
#[verifier::external_body]
pub(crate) fn checked_quotient(dividend: Decimal, divisor: Decimal) -> (quotient: Option<Decimal>)
    ensures
        quotient is Some <==> decimal_quotient(dividend@, divisor@) is Some,
        quotient matches Some(q) ==> decimal_quotient(dividend@, divisor@) == Some(q@)
            && q@.representable(),
        divisor@.is_zero() ==> quotient is None,
{
    let x = rust_decimal::Decimal::from_i128_with_scale(dividend.mantissa, dividend.scale);
    let y = rust_decimal::Decimal::from_i128_with_scale(divisor.mantissa, divisor.scale);
    match x.checked_div(y) {
        Some(q) => Some(Decimal { mantissa: q.mantissa(), scale: q.scale() }),
        None => None,
    }
}

/// Adds with `rust_decimal::Decimal::checked_add`, which gives `None` for a
/// sum out of range.
///
/// Not proved: that the outcome depends on the two numbers alone, which
/// [`decimal_sum`] names, and that a sum is in the range of a decimal. Both
/// arguments are in range, as every [`Decimal`] is, so
/// `from_i128_with_scale` takes them.
#[verifier::external_body]
pub(crate) fn checked_sum(left: Decimal, right: Decimal) -> (sum: Option<Decimal>)
    ensures
        sum is Some <==> decimal_sum(left@, right@) is Some,
        sum matches Some(s) ==> decimal_sum(left@, right@) == Some(s@) && s@.representable(),
{
    let x = rust_decimal::Decimal::from_i128_with_scale(left.mantissa, left.scale);
    let y = rust_decimal::Decimal::from_i128_with_scale(right.mantissa, right.scale);
    match x.checked_add(y) {
        Some(s) => Some(Decimal { mantissa: s.mantissa(), scale: s.scale() }),
        None => None,
    }
}

/// Multiplies with `rust_decimal::Decimal::checked_mul`, which gives `None`
/// for a product out of range.
///
/// Not proved: that the outcome depends on the two numbers alone, which
/// [`decimal_product`] names, and that a product is in the range of a
/// decimal. How a product of more than 96 bits or 28 fractional digits is
/// rounded is not stated. Both arguments are in range, as every [`Decimal`]
/// is, so `from_i128_with_scale` takes them.
#[verifier::external_body]
pub(crate) fn checked_product(left: Decimal, right: Decimal) -> (product: Option<Decimal>)
    ensures
        product is Some <==> decimal_product(left@, right@) is Some,
        product matches Some(p) ==> decimal_product(left@, right@) == Some(p@)
            && p@.representable(),
{
    let x = rust_decimal::Decimal::from_i128_with_scale(left.mantissa, left.scale);
    let y = rust_decimal::Decimal::from_i128_with_scale(right.mantissa, right.scale);
    match x.checked_mul(y) {
        Some(p) => Some(Decimal { mantissa: p.mantissa(), scale: p.scale() }),
        None => None,
    }
}

/// One more factor of ten: `m * 10^(e + 1) == (m * 10^e) * 10`.
proof fn lemma_pow_step(mantissa: int, exponent: nat)
    ensures
        mantissa * pow(10, exponent + 1) == (mantissa * pow(10, exponent)) * 10,
{
    lemma_pow_adds(10, exponent, 1);
    lemma_pow1(10);
    assert(mantissa * (pow(10, exponent) * 10) == (mantissa * pow(10, exponent)) * 10)
        by (nonlinear_arith);
}

/// Once `m * 10^done` has left the range of a mantissa by one more factor of
/// ten, `m * 10^exponent` is outside it for every `exponent > done`.
proof fn lemma_scaling_grows(mantissa: int, done: nat, exponent: nat)
    requires
        done < exponent,
        mantissa * pow(10, done) > MAX_MANTISSA / 10 || mantissa * pow(10, done) < -(MAX_MANTISSA
            / 10),
    ensures
        mantissa * pow(10, exponent) > MAX_MANTISSA || mantissa * pow(10, exponent)
            < -MAX_MANTISSA,
{
    let rest = (exponent - done) as nat;
    lemma_pow_adds(10, done, rest);
    lemma_pow_positive(10, rest);
    lemma_pow_increases(10, 1, rest);
    lemma_pow1(10);
    let unit = pow(10, done);
    let scaled = mantissa * unit;
    let factor = pow(10, rest);
    assert(mantissa * (unit * factor) == scaled * factor) by (nonlinear_arith)
        requires
            scaled == mantissa * unit,
    ;
    assert(factor >= 10);
    if scaled > MAX_MANTISSA / 10 {
        assert(scaled * factor >= scaled * 10) by (nonlinear_arith)
            requires
                scaled > 0,
                factor >= 10,
        ;
    } else {
        assert(scaled * factor <= scaled * 10) by (nonlinear_arith)
            requires
                scaled < 0,
                factor >= 10,
        ;
    }
}

/// Two decimals are the same number exactly if the one of the smaller scale,
/// brought to the other's scale, has the other's mantissa.
proof fn lemma_same_number_by_scaling(low: DecimalValue, high: DecimalValue)
    requires
        low.scale <= high.scale,
    ensures
        low.same_number(high) <==> low.mantissa * pow(10, (high.scale - low.scale) as nat)
            == high.mantissa,
        low.same_number(high) <==> high.same_number(low),
{
    let rest = (high.scale - low.scale) as nat;
    lemma_pow_adds(10, rest, low.scale);
    lemma_pow_positive(10, low.scale);
    let unit = pow(10, low.scale);
    let up = pow(10, rest);
    let brought = low.mantissa * up;
    assert(low.mantissa * (up * unit) == brought * unit) by (nonlinear_arith)
        requires
            brought == low.mantissa * up,
    ;
    assert(brought * unit == high.mantissa * unit <==> brought == high.mantissa)
        by (nonlinear_arith)
        requires
            unit > 0,
    ;
}

} // verus!
