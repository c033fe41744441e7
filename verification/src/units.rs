//! Conversion between decimal amounts and integer base units.
//!
//! One unit of the quote currency is 10^6 base units. Going to base units cuts
//! off what lies below one base unit; coming back is exact.
//!
//! The conversion to base units first cuts the amount at six fractional
//! digits and then multiplies by 10^6, so that the product has no digit to
//! round away.

use vstd::prelude::*;
use vstd::arithmetic::power::{pow, lemma_pow_adds, lemma_pow_positive};
use vstd::arithmetic::div_mod::{
    lemma_div_by_multiple,
    lemma_div_multiples_vanish_quotient,
    lemma_div_nonincreasing,
    lemma_div_pos_is_pos,
    lemma_fundamental_div_mod,
};
use crate::money::{
    Money,
    MANTISSA_LIMIT,
    MAX_SCALE,
    pow10,
    magnitude,
    whole_part,
    product_of,
    product_is_plain,
    decimal_checked_mul,
    decimal_trunc,
    decimal_trunc_with_scale,
    decimal_from_parts,
};

verus! {

/// Base units in one unit of the quote currency.
pub const BASE_UNITS_PER_UNIT: i128 = 1_000_000;

/// Fractional digits of the quote currency.
pub const BASE_UNIT_DIGITS: u32 = 6;

/// Why an evaluation of one direction did not give a result.
#[derive(Clone, Copy, Debug, PartialEq, Eq, Structural)]
pub enum ArbError {
    /// An amount does not fit the integer range of base units, or the range of `Money`.
    ConversionOverflow,
    /// The quote provider failed, or its answer holds fewer than two amounts.
    QuoteError,
    /// The profit does not fit the range of `Money`.
    ProfitOverflow,
}

/// One base unit, counted in the 10^-28 steps in which `Money::units` counts.
pub open spec fn base_unit() -> int {
    pow10((MAX_SCALE - BASE_UNIT_DIGITS) as nat)
}

/// The factor between units and base units, as an amount.
pub open spec fn per_unit() -> Money {
    Money { mantissa: BASE_UNITS_PER_UNIT, scale: 0 }
}

/// The integer part of a product, as a count of base units: negative counts
/// and a product that overflowed are out of range.
pub open spec fn base_units_in(scaled: Option<(int, nat)>) -> Result<u128, ArbError> {
    match scaled {
        None => Err(ArbError::ConversionOverflow),
        Some(p) => {
            let w = whole_part(p.0, p.1);
            if 0 <= w <= u128::MAX {
                Ok(w as u128)
            } else {
                Err(ArbError::ConversionOverflow)
            }
        },
    }
}

/// The amount cut at six fractional digits, toward zero. An amount with no
/// more than six is left as it is.
pub open spec fn cut_to_base(amount: Money) -> Money {
    if amount.scale > BASE_UNIT_DIGITS {
        Money {
            mantissa: whole_part(
                amount.mantissa as int,
                (amount.scale - BASE_UNIT_DIGITS) as nat,
            ) as i128,
            scale: BASE_UNIT_DIGITS,
        }
    } else {
        amount
    }
}

/// What `usdc_to_wei` returns: the integer part of the cut amount times 10^6,
/// the product being the one `rust_decimal` computes.
pub open spec fn base_units_of(amount: Money) -> Result<u128, ArbError> {
    base_units_in(product_of(cut_to_base(amount), per_unit()))
}

/// `amount` times 10^6 with the fraction cut off toward zero: the amount as
/// a whole number of base units.
pub open spec fn whole_base_units(amount: Money) -> int {
    whole_part(amount.units(), (MAX_SCALE - BASE_UNIT_DIGITS) as nat)
}

/// `amount` as a count of base units, the fraction cut off toward zero; out
/// of range where it is negative.
pub open spec fn truncated_base_units(amount: Money) -> Result<u128, ArbError> {
    let w = whole_base_units(amount);
    if 0 <= w <= u128::MAX {
        Ok(w as u128)
    } else {
        Err(ArbError::ConversionOverflow)
    }
}

/// The cut amount times 10^6 still fits the mantissa: the multiplication is
/// exact, and so is the conversion.
pub open spec fn multiplies_plainly(amount: Money) -> bool {
    product_is_plain(cut_to_base(amount), per_unit())
}

/// The count of base units, times 10^6 once more, still fits the mantissa:
/// the amount lies below 2^96 / 10^12 units. Such an amount multiplies
/// plainly however it is written.
pub open spec fn converts_plainly(amount: Money) -> bool {
    magnitude(whole_base_units(amount)) * BASE_UNITS_PER_UNIT < MANTISSA_LIMIT
}

/// The amount that `value` base units are: `value / 10^6`.
pub open spec fn money_of_base_units(value: u128) -> Money {
    Money { mantissa: value as i128, scale: BASE_UNIT_DIGITS }
}

/// Powers of ten are positive, and their exponents add.
pub proof fn lemma_pow10_split(a: nat, b: nat)
    ensures
        pow10(a + b) == pow10(a) * pow10(b),
        pow10(a) > 0,
        pow10(b) > 0,
{
    lemma_pow_adds(10, a, b);
    lemma_pow_positive(10, a);
    lemma_pow_positive(10, b);
}

/// 10^6 is one million.
pub proof fn lemma_pow10_six()
    ensures
        pow10(6) == 1_000_000,
{
    reveal_with_fuel(pow, 7);
}

/// The integer part of an amount is no larger in magnitude than its mantissa.
pub proof fn lemma_whole_part_bound(mantissa: int, scale: nat)
    ensures
        magnitude(whole_part(mantissa, scale)) <= magnitude(mantissa),
        mantissa >= 0 ==> whole_part(mantissa, scale) >= 0,
        mantissa <= 0 ==> whole_part(mantissa, scale) <= 0,
{
    lemma_pow_positive(10, scale);
    if mantissa >= 0 {
        lemma_div_nonincreasing(mantissa, pow10(scale));
        lemma_div_pos_is_pos(mantissa, pow10(scale));
    } else {
        lemma_div_nonincreasing(-mantissa, pow10(scale));
        lemma_div_pos_is_pos(-mantissa, pow10(scale));
    }
}

proof fn lemma_scale_quotient(n: int, s: nat)
    requires
        0 <= n,
        s <= 28,
    ensures
        (n * 1_000_000) / pow10(s) == (n * pow10((28 - s) as nat)) / pow10(22),
{
    let x = pow10((28 - s) as nat);
    lemma_pow10_split((28 - s) as nat, s);
    lemma_pow10_split(6, 22);
    lemma_pow10_six();
    assert(x * pow10(s) == 1_000_000 * pow10(22));
    assert(0 <= n * 1_000_000);
    assert(0 <= n * x) by (nonlinear_arith)
        requires
            0 <= n,
            0 < x,
    ;
    lemma_div_multiples_vanish_quotient(x, n * 1_000_000, pow10(s));
    lemma_div_multiples_vanish_quotient(1_000_000, n * x, pow10(22));
    assert(x * (n * 1_000_000) == 1_000_000 * (n * x)) by (nonlinear_arith);
}

/// Multiplying the mantissa by 10^6 and cutting at the amount's own scale is
/// cutting the amount's value at one base unit.
pub proof fn lemma_scaled_whole(amount: Money)
    requires
        amount.wf(),
    ensures
        whole_part(amount.mantissa * 1_000_000, amount.scale as nat) == whole_part(
            amount.units(),
            22,
        ),
{
    let m = amount.mantissa as int;
    let s = amount.scale as nat;
    let x = pow10((28 - s) as nat);
    lemma_pow_positive(10, (28 - s) as nat);
    if m >= 0 {
        lemma_scale_quotient(m, s);
        assert(m * x >= 0) by (nonlinear_arith)
            requires
                m >= 0,
                x > 0,
        ;
    } else {
        lemma_scale_quotient(-m, s);
        assert((-m) * x == -(m * x)) by (nonlinear_arith);
        assert((-m) * 1_000_000 == -(m * 1_000_000));
        assert(m * x < 0) by (nonlinear_arith)
            requires
                m < 0,
                x > 0,
        ;
    }
}

proof fn lemma_cut_quotient(n: int, s: nat)
    requires
        0 <= n,
        6 < s <= 28,
    ensures
        n / pow10((s - 6) as nat) == (n * pow10((28 - s) as nat)) / pow10(22),
{
    let x = pow10((28 - s) as nat);
    lemma_pow10_split((28 - s) as nat, (s - 6) as nat);
    lemma_div_multiples_vanish_quotient(x, n, pow10((s - 6) as nat));
    assert(x * n == n * x) by (nonlinear_arith);
}

/// Cutting an amount at six digits leaves its count of base units as it is,
/// and the cut amount's mantissa is no larger in magnitude than that count.
pub proof fn lemma_cut_keeps_base_units(amount: Money)
    requires
        amount.wf(),
    ensures
        cut_to_base(amount).wf(),
        whole_base_units(cut_to_base(amount)) == whole_base_units(amount),
        magnitude(cut_to_base(amount).mantissa as int) <= magnitude(whole_base_units(amount)),
{
    let m = amount.mantissa as int;
    let s = amount.scale as nat;
    let w = whole_base_units(amount);
    lemma_pow10_six();
    if s > 6 {
        let x = pow10((28 - s) as nat);
        let c = whole_part(m, (s - 6) as nat);
        lemma_pow_positive(10, (28 - s) as nat);
        lemma_pow_positive(10, 22);
        lemma_whole_part_bound(m, (s - 6) as nat);
        if m >= 0 {
            lemma_cut_quotient(m, s);
            assert(m * x >= 0) by (nonlinear_arith)
                requires
                    m >= 0,
                    x > 0,
            ;
        } else {
            lemma_cut_quotient(-m, s);
            assert((-m) * x == -(m * x)) by (nonlinear_arith);
            assert(m * x < 0) by (nonlinear_arith)
                requires
                    m < 0,
                    x > 0,
            ;
        }
        assert(c == w);
        let cut = cut_to_base(amount);
        assert(cut.mantissa == c);
        assert(cut.units() == c * pow10(22));
        if c >= 0 {
            lemma_div_by_multiple(c, pow10(22));
        } else {
            lemma_div_by_multiple(-c, pow10(22));
            assert((-c) * pow10(22) == -(c * pow10(22))) by (nonlinear_arith);
            assert(c * pow10(22) < 0) by (nonlinear_arith)
                requires
                    c < 0,
                    pow10(22) > 0,
            ;
        }
    } else {
        let k = pow10((6 - s) as nat);
        lemma_scaled_whole(amount);
        lemma_pow10_split((6 - s) as nat, s);
        assert(m * 1_000_000 == (m * k) * pow10(s)) by (nonlinear_arith)
            requires
                1_000_000 == k * pow10(s),
        ;
        if m >= 0 {
            assert(m * k >= m) by (nonlinear_arith)
                requires
                    m >= 0,
                    k >= 1,
            ;
            lemma_div_by_multiple(m * k, pow10(s));
        } else {
            assert((-m) * k >= -m) by (nonlinear_arith)
                requires
                    m < 0,
                    k >= 1,
            ;
            assert((-m) * 1_000_000 == ((-m) * k) * pow10(s)) by (nonlinear_arith)
                requires
                    1_000_000 == k * pow10(s),
            ;
            lemma_div_by_multiple((-m) * k, pow10(s));
        }
    }
}

/// An amount below 2^96 / 10^12 units multiplies plainly, whatever its digits.
pub proof fn lemma_small_amounts_multiply_plainly(amount: Money)
    requires
        amount.wf(),
        converts_plainly(amount),
    ensures
        multiplies_plainly(amount),
{
    let cut = cut_to_base(amount);
    lemma_cut_keeps_base_units(amount);
    assert(magnitude(cut.mantissa * BASE_UNITS_PER_UNIT) < MANTISSA_LIMIT);
}

/// Where the amount multiplies plainly, `usdc_to_wei` gives its exact count
/// of base units: no rounding takes part.
pub proof fn lemma_base_units_plain(amount: Money)
    requires
        amount.wf(),
        multiplies_plainly(amount),
    ensures
        base_units_of(amount) == truncated_base_units(amount),
        magnitude(whole_base_units(amount)) < MANTISSA_LIMIT,
{
    let cut = cut_to_base(amount);
    lemma_cut_keeps_base_units(amount);
    lemma_scaled_whole(cut);
    lemma_whole_part_bound(cut.mantissa * 1_000_000, cut.scale as nat);
    lemma_pow_positive(10, cut.scale as nat);
    lemma_pow_positive(10, 0);
    if cut.mantissa == 0 {
        assert(whole_part(0, 0) == 0);
        assert(whole_part(0, cut.scale as nat) == 0);
    }
}

/// Converts a decimal amount to base units: times 10^6, the fraction cut off
/// toward zero. The amount is cut at six fractional digits before it is
/// multiplied, so the product has nothing to round. Fails with
/// `ConversionOverflow` where the product overflows or the count is negative.
/// Wherever that product fits the mantissa, and so for every amount below
/// 2^96 / 10^12 units, the result is exactly the amount's count of base units.
pub fn usdc_to_wei(amount: Money) -> (r: Result<u128, ArbError>)
    requires
        amount.wf(),
    ensures
        r == base_units_of(amount),
        multiplies_plainly(amount) ==> r == truncated_base_units(amount),
        converts_plainly(amount) ==> r == truncated_base_units(amount),
{
    let factor = Money { mantissa: BASE_UNITS_PER_UNIT, scale: 0 };
    proof {
        lemma_cut_keeps_base_units(amount);
        lemma_whole_part_bound(
            amount.mantissa as int,
            (amount.scale - BASE_UNIT_DIGITS) as nat,
        );
        if converts_plainly(amount) {
            lemma_small_amounts_multiply_plainly(amount);
        }
        if multiplies_plainly(amount) {
            lemma_base_units_plain(amount);
        }
    }
    let cut = if amount.scale > BASE_UNIT_DIGITS {
        decimal_trunc_with_scale(amount, BASE_UNIT_DIGITS)
    } else {
        amount
    };
    match decimal_checked_mul(cut, factor) {
        None => Err(ArbError::ConversionOverflow),
        Some(scaled) => {
            let whole = decimal_trunc(scaled);
            if whole.mantissa >= 0 {
                Ok(whole.mantissa as u128)
            } else {
                Err(ArbError::ConversionOverflow)
            }
        },
    }
}

/// Converts base units back to a decimal amount: exactly `value / 10^6`.
pub fn u256_to_usdc(value: u128) -> (r: Money)
    requires
        value < MANTISSA_LIMIT,
    ensures
        r == money_of_base_units(value),
        r.wf(),
        r.units() == value * base_unit(),
{
    decimal_from_parts(value as i128, BASE_UNIT_DIGITS)
}

/// Converting to base units and back cuts a non-negative amount at six
/// fractional digits, toward zero: what comes back is the amount less what
/// lay below one base unit. This holds wherever the amount multiplies
/// plainly.
pub proof fn lemma_round_trip_truncates(m: Money)
    requires
        m.wf(),
        m.mantissa >= 0,
        multiplies_plainly(m),
    ensures
        base_units_of(m) matches Ok(b) && b < MANTISSA_LIMIT && money_of_base_units(b).units()
            == m.units() - m.units() % base_unit(),
{
    lemma_base_units_plain(m);
    lemma_pow_positive(10, 22);
    lemma_pow_positive(10, (28 - m.scale) as nat);
    let x = pow10((28 - m.scale) as nat);
    assert(m.units() >= 0) by (nonlinear_arith)
        requires
            m.units() == m.mantissa * x,
            m.mantissa >= 0,
            x > 0,
    ;
    lemma_div_pos_is_pos(m.units(), pow10(22));
    lemma_fundamental_div_mod(m.units(), pow10(22));
    let w = whole_base_units(m);
    assert(w * pow10(22) == pow10(22) * w) by (nonlinear_arith);
}

/// Base units that came from an amount give the amount back: for every
/// non-negative amount with at most six fractional digits that multiplies
/// plainly, converting to base units and back changes nothing.
pub proof fn lemma_round_trip(m: Money)
    requires
        m.wf(),
        m.mantissa >= 0,
        m.units() % base_unit() == 0,
        multiplies_plainly(m),
    ensures
        base_units_of(m) matches Ok(b) && b < MANTISSA_LIMIT && money_of_base_units(b).units()
            == m.units(),
{
    lemma_round_trip_truncates(m);
}

/// An amount that came from base units gives the same base units back,
/// wherever the count times 10^6 fits the mantissa.
pub proof fn lemma_base_units_come_back(value: u128)
    requires
        value * BASE_UNITS_PER_UNIT < MANTISSA_LIMIT,
    ensures
        base_units_of(money_of_base_units(value)) == Ok::<u128, ArbError>(value),
{
    let m = money_of_base_units(value);
    lemma_pow10_six();
    lemma_pow_positive(10, 0);
    assert(cut_to_base(m) == m);
    assert(product_is_plain(m, per_unit()));
    if value == 0 {
        assert(whole_part(0, 0) == 0);
    } else {
        lemma_div_by_multiple(value as int, 1_000_000);
    }
}

} // verus!
