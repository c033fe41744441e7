use arb_engine::money::{Money, MANTISSA_LIMIT, MAX_SCALE};
use arb_engine::units::{u256_to_usdc, usdc_to_wei, ArbError, BASE_UNITS_PER_UNIT, BASE_UNIT_DIGITS};
use rust_decimal::Decimal;

fn money(mantissa: i128, scale: u32) -> Money {
    Money::new(mantissa, scale).expect("amount in range")
}

fn decimal(m: Money) -> Decimal {
    Decimal::from_i128_with_scale(m.mantissa, m.scale)
}

#[test]
fn constants_describe_six_digits() {
    assert_eq!(BASE_UNITS_PER_UNIT, 1_000_000);
    assert_eq!(BASE_UNIT_DIGITS, 6);
    assert_eq!(MAX_SCALE, 28);
    assert_eq!(MANTISSA_LIMIT, 1i128 << 96);
}

#[test]
fn money_new_accepts_the_whole_range() {
    assert_eq!(Money::new(0, 0), Some(Money { mantissa: 0, scale: 0 }));
    assert_eq!(
        Money::new(MANTISSA_LIMIT - 1, 28),
        Some(Money { mantissa: MANTISSA_LIMIT - 1, scale: 28 })
    );
    assert_eq!(
        Money::new(-(MANTISSA_LIMIT - 1), 0),
        Some(Money { mantissa: -(MANTISSA_LIMIT - 1), scale: 0 })
    );
}

#[test]
fn money_new_rejects_what_is_out_of_range() {
    assert_eq!(Money::new(MANTISSA_LIMIT, 0), None);
    assert_eq!(Money::new(-MANTISSA_LIMIT, 0), None);
    assert_eq!(Money::new(1, 29), None);
}

#[test]
fn to_base_units_of_1000_23() {
    assert_eq!(usdc_to_wei(money(100_023, 2)), Ok(1_000_230_000));
}

#[test]
fn from_base_units_of_1_000_230_000() {
    let m = u256_to_usdc(1_000_230_000);
    assert_eq!(decimal(m), Decimal::new(100_023, 2));
    assert_eq!(m, Money { mantissa: 1_000_230_000, scale: 6 });
}

#[test]
fn from_base_units_of_zero_and_of_one() {
    assert_eq!(decimal(u256_to_usdc(0)), Decimal::ZERO);
    assert_eq!(decimal(u256_to_usdc(1)), Decimal::new(1, 6));
}

#[test]
fn from_base_units_at_the_top_of_the_range() {
    let top = (MANTISSA_LIMIT - 1) as u128;
    let m = u256_to_usdc(top);
    assert_eq!(m.mantissa, MANTISSA_LIMIT - 1);
    assert_eq!(m.scale, 6);
}

#[test]
fn to_base_units_cuts_and_never_rounds_up() {
    assert_eq!(usdc_to_wei(money(12_345_679, 7)), Ok(1_234_567));
    assert_eq!(usdc_to_wei(money(9_999_999, 7)), Ok(999_999));
    assert_eq!(usdc_to_wei(money(19_999_999_999, 10)), Ok(1_999_999));
}

#[test]
fn to_base_units_of_whole_amounts() {
    assert_eq!(usdc_to_wei(money(0, 0)), Ok(0));
    assert_eq!(usdc_to_wei(money(1000, 0)), Ok(1_000_000_000));
    assert_eq!(usdc_to_wei(money(1, 6)), Ok(1));
    assert_eq!(usdc_to_wei(money(1, 7)), Ok(0));
}

#[test]
fn to_base_units_rejects_negative_amounts() {
    assert_eq!(usdc_to_wei(money(-15, 1)), Err(ArbError::ConversionOverflow));
    assert_eq!(usdc_to_wei(money(-1, 6)), Err(ArbError::ConversionOverflow));
}

#[test]
fn to_base_units_of_a_negative_amount_below_one_base_unit_is_zero() {
    assert_eq!(usdc_to_wei(money(-1, 7)), Ok(0));
}

#[test]
fn to_base_units_overflows_on_the_largest_amount() {
    assert_eq!(
        usdc_to_wei(money(MANTISSA_LIMIT - 1, 0)),
        Err(ArbError::ConversionOverflow)
    );
}

#[test]
fn to_base_units_of_an_amount_with_many_digits() {
    let one_and_a_bit = money(10_000_000_000_000_000_000_000_000_001, 28);
    assert_eq!(usdc_to_wei(one_and_a_bit), Ok(1_000_000));
    let a_third = money(3_333_333_333_333_333_333_333_333_333, 28);
    assert_eq!(usdc_to_wei(a_third), Ok(333_333));
}

#[test]
fn to_base_units_does_not_round_a_long_run_of_nines() {
    let just_below_two = money(19_999_999_999_999_999_999_999_999_999, 28);
    assert_eq!(usdc_to_wei(just_below_two), Ok(1_999_999));
    let just_below_one_unit = money(9_999_999_999, 16);
    assert_eq!(usdc_to_wei(just_below_one_unit), Ok(0));
}

#[test]
fn to_base_units_of_a_large_amount_with_six_digits() {
    let large = money(79_000_000_000_000_000_000_000, 6);
    assert_eq!(usdc_to_wei(large), Ok(79_000_000_000_000_000_000_000));
}

#[test]
fn round_trip_keeps_amounts_with_six_digits() {
    let samples = vec![
        money(0, 0),
        money(1, 6),
        money(100_023, 2),
        money(1000, 0),
        money(123_456_789_012, 6),
        money(5, 1),
        money(1_500_000_000, 9),
    ];
    for m in samples {
        let base = usdc_to_wei(m).expect("fits");
        let back = u256_to_usdc(base);
        assert_eq!(decimal(back), decimal(m));
    }
}

#[test]
fn round_trip_cuts_below_six_digits() {
    let base = usdc_to_wei(money(12_345_678, 7)).expect("fits");
    assert_eq!(decimal(u256_to_usdc(base)), Decimal::new(1_234_567, 6));
}
