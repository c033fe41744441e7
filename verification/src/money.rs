//! Decimal currency amounts.
//!
//! A [`Money`] value is a decimal number held as a signed mantissa and a count
//! of fractional digits, the same two numbers a `rust_decimal::Decimal` is made
//! of. Arithmetic on amounts is done by `rust_decimal`; the functions of this
//! module that call it are trusted, and each says what it takes on trust.

use vstd::prelude::*;
use vstd::arithmetic::power::pow;
use rust_decimal::Decimal;

verus! {

/// Largest number of fractional digits an amount can carry.
pub const MAX_SCALE: u32 = 28;

/// Mantissas lie strictly between `-MANTISSA_LIMIT` and `MANTISSA_LIMIT`, which is 2^96.
pub const MANTISSA_LIMIT: i128 = 79_228_162_514_264_337_593_543_950_336;

/// Ten to the power `n`.
pub open spec fn pow10(n: nat) -> int {
    pow(10, n)
}

/// The absolute value of `x`.
pub open spec fn magnitude(x: int) -> int {
    if x >= 0 {
        x
    } else {
        -x
    }
}

/// The integer part of `mantissa / 10^scale`, the fraction cut off toward zero.
pub open spec fn whole_part(mantissa: int, scale: nat) -> int {
    if mantissa >= 0 {
        mantissa / pow10(scale)
    } else {
        -((-mantissa) / pow10(scale))
    }
}

/// A decimal amount: `mantissa / 10^scale`.
#[derive(Clone, Copy, Debug, PartialEq, Eq, Structural)]
pub struct Money {
    pub mantissa: i128,
    pub scale: u32,
}

impl Money {
    /// The amount is one that a 96-bit decimal can hold.
    pub open spec fn wf(self) -> bool {
        &&& -MANTISSA_LIMIT < self.mantissa < MANTISSA_LIMIT
        &&& self.scale <= MAX_SCALE
    }

    /// The mantissa the amount has when written with `scale` fractional digits.
    pub open spec fn at(self, scale: nat) -> int
        recommends
            self.scale <= scale,
    {
        self.mantissa * pow10((scale - self.scale) as nat)
    }

    /// The amount as a whole number of 10^-28 units: its mathematical value.
    /// Two amounts are the same number exactly when their `units` agree.
    pub open spec fn units(self) -> int {
        self.at(MAX_SCALE as nat)
    }

    /// The mantissa and scale as a pair.
    pub open spec fn parts(self) -> (int, nat) {
        (self.mantissa as int, self.scale as nat)
    }

    /// An amount from its two parts, or `None` where they are out of range.
    pub fn new(mantissa: i128, scale: u32) -> (r: Option<Money>)
        ensures
            r == (if (Money { mantissa, scale }).wf() {
                Some(Money { mantissa, scale })
            } else {
                None
            }),
    {
        if -MANTISSA_LIMIT < mantissa && mantissa < MANTISSA_LIMIT && scale <= MAX_SCALE {
            Some(Money { mantissa, scale })
        } else {
            None
        }
    }
}

/// The parts of an optional amount.
pub open spec fn parts_of(r: Option<Money>) -> Option<(int, nat)> {
    match r {
        Some(m) => Some(m.parts()),
        None => None,
    }
}

/// What `Decimal::checked_mul` returns for the operands `am / 10^asc` and
/// `bm / 10^bsc`, as mantissa and scale; `None` for an overflow.
pub uninterp spec fn decimal_product(am: int, asc: nat, bm: int, bsc: nat) -> Option<(int, nat)>;

/// What `Decimal::checked_sub` returns for the operands `am / 10^asc` and
/// `bm / 10^bsc`, as mantissa and scale; `None` for an overflow.
pub uninterp spec fn decimal_difference(am: int, asc: nat, bm: int, bsc: nat) -> Option<(int, nat)>;

/// The product of the two mantissas fits in 96 bits and the scales add up to
/// at most 28: the multiplication needs no rounding.
pub open spec fn product_is_plain(a: Money, b: Money) -> bool {
    &&& magnitude(a.mantissa * b.mantissa) < MANTISSA_LIMIT
    &&& a.scale + b.scale <= MAX_SCALE
}

/// The exact product of two amounts whose product is plain.
pub open spec fn plain_product(a: Money, b: Money) -> (int, nat) {
    if a.mantissa == 0 || b.mantissa == 0 {
        (0, 0)
    } else {
        (a.mantissa * b.mantissa, (a.scale + b.scale) as nat)
    }
}

/// The product of two amounts as `rust_decimal` computes it.
pub open spec fn product_of(a: Money, b: Money) -> Option<(int, nat)> {
    if product_is_plain(a, b) {
        Some(plain_product(a, b))
    } else {
        decimal_product(a.mantissa as int, a.scale as nat, b.mantissa as int, b.scale as nat)
    }
}

/// The larger of the two scales.
pub open spec fn common_scale(a: Money, b: Money) -> nat {
    if a.scale >= b.scale {
        a.scale as nat
    } else {
        b.scale as nat
    }
}

/// Both operands, written at their common scale, and their difference fit in
/// 96 bits: the subtraction needs no rounding.
pub open spec fn difference_is_plain(a: Money, b: Money) -> bool {
    let s = common_scale(a, b);
    &&& magnitude(a.at(s)) < MANTISSA_LIMIT
    &&& magnitude(b.at(s)) < MANTISSA_LIMIT
    &&& magnitude(a.at(s) - b.at(s)) < MANTISSA_LIMIT
}

/// Calls `Decimal::checked_mul`. Taken on trust: the result is a valid
/// amount; where the product is plain it is the exact product, with the
/// scales added (zero, at scale 0, where an operand is zero); in every other
/// case it is whatever `checked_mul` gives for these operands.
#[verifier::external_body]
pub(crate) fn decimal_checked_mul(a: Money, b: Money) -> (r: Option<Money>)
    requires
        a.wf(),
        b.wf(),
    ensures
        r matches Some(p) ==> p.wf(),
        product_is_plain(a, b) ==> parts_of(r) == Some(plain_product(a, b)),
        !product_is_plain(a, b) ==> parts_of(r) == decimal_product(
            a.mantissa as int,
            a.scale as nat,
            b.mantissa as int,
            b.scale as nat,
        ),
{
    let x = Decimal::from_i128_with_scale(a.mantissa, a.scale);
    let y = Decimal::from_i128_with_scale(b.mantissa, b.scale);
    match x.checked_mul(y) {
        Some(p) => Some(Money { mantissa: p.mantissa(), scale: p.scale() }),
        None => None,
    }
}

/// Calls `Decimal::checked_sub`. Taken on trust: the result is a valid amount
/// and is whatever `checked_sub` gives for these operands; where the
/// difference is plain it is `Some`, its value is exactly `a - b`, and its
/// scale is no larger than the larger scale of the operands.
#[verifier::external_body]
pub(crate) fn decimal_checked_sub(a: Money, b: Money) -> (r: Option<Money>)
    requires
        a.wf(),
        b.wf(),
    ensures
        r matches Some(d) ==> d.wf(),
        parts_of(r) == decimal_difference(
            a.mantissa as int,
            a.scale as nat,
            b.mantissa as int,
            b.scale as nat,
        ),
        difference_is_plain(a, b) ==> r is Some,
        r matches Some(d) ==> (difference_is_plain(a, b) ==> d.units() == a.units() - b.units()),
        r matches Some(d) ==> (difference_is_plain(a, b) ==> d.scale <= common_scale(a, b)),
{
    let x = Decimal::from_i128_with_scale(a.mantissa, a.scale);
    let y = Decimal::from_i128_with_scale(b.mantissa, b.scale);
    match x.checked_sub(y) {
        Some(d) => Some(Money { mantissa: d.mantissa(), scale: d.scale() }),
        None => None,
    }
}

/// Calls `Decimal::trunc`. Taken on trust: the result has scale 0 and is the
/// integer part of the amount, the fraction cut off toward zero.
#[verifier::external_body]
pub(crate) fn decimal_trunc(a: Money) -> (r: Money)
    requires
        a.wf(),
    ensures
        r.scale == 0,
        r.mantissa == whole_part(a.mantissa as int, a.scale as nat),
{
    let t = Decimal::from_i128_with_scale(a.mantissa, a.scale).trunc();
    Money { mantissa: t.mantissa(), scale: t.scale() }
}

/// Calls `Decimal::trunc_with_scale`, on an amount that has more than
/// `digits` fractional digits. Taken on trust: the result has `digits`
/// fractional digits and is the amount with the digits beyond them cut off,
/// toward zero and without rounding.
#[verifier::external_body]
pub(crate) fn decimal_trunc_with_scale(a: Money, digits: u32) -> (r: Money)
    requires
        a.wf(),
        digits < a.scale,
    ensures
        r.scale == digits,
        r.mantissa == whole_part(a.mantissa as int, (a.scale - digits) as nat),
{
    let t = Decimal::from_i128_with_scale(a.mantissa, a.scale).trunc_with_scale(digits);
    Money { mantissa: t.mantissa(), scale: t.scale() }
}

/// Calls `Decimal::from_i128_with_scale`. Taken on trust: the decimal made
/// has the given mantissa and scale.
#[verifier::external_body]
pub(crate) fn decimal_from_parts(mantissa: i128, scale: u32) -> (r: Money)
    requires
        -MANTISSA_LIMIT < mantissa < MANTISSA_LIMIT,
        scale <= MAX_SCALE,
    ensures
        r == (Money { mantissa, scale }),
{
    let d = Decimal::from_i128_with_scale(mantissa, scale);
    Money { mantissa: d.mantissa(), scale: d.scale() }
}

/// Compares two `Decimal`s with `>=`. Taken on trust: decimals are ordered
/// by their value.
#[verifier::external_body]
pub(crate) fn decimal_ge(a: Money, b: Money) -> (r: bool)
    requires
        a.wf(),
        b.wf(),
    ensures
        r == (a.units() >= b.units()),
{
    Decimal::from_i128_with_scale(a.mantissa, a.scale) >= Decimal::from_i128_with_scale(
        b.mantissa,
        b.scale,
    )
}

} // verus!
