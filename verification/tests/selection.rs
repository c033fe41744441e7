use arb_engine::money::Money;
use arb_engine::selector::best_direction;
use arb_engine::trade::{Direction, TradeResult};
use arb_engine::units::ArbError;

fn result(direction: Direction, mantissa: i128, scale: u32) -> TradeResult {
    TradeResult {
        direction,
        profit: Money::new(mantissa, scale).expect("amount in range"),
    }
}

#[test]
fn best_is_nothing_when_both_directions_fail() {
    assert_eq!(
        best_direction(Err(ArbError::QuoteError), Err(ArbError::ConversionOverflow)),
        None
    );
}

#[test]
fn best_is_the_sole_success_even_at_a_loss() {
    let ab = result(Direction::BuyOnA, -725, 2);
    assert_eq!(best_direction(Ok(ab), Err(ArbError::QuoteError)), Some(ab));
    let ba = result(Direction::BuyOnB, -1, 6);
    assert_eq!(best_direction(Err(ArbError::QuoteError), Ok(ba)), Some(ba));
}

#[test]
fn best_of_10_and_12_is_the_second_direction() {
    let ab = result(Direction::BuyOnA, 1000, 2);
    let ba = result(Direction::BuyOnB, 1200, 2);
    let best = best_direction(Ok(ab), Ok(ba)).expect("a result");
    assert_eq!(best.direction, Direction::BuyOnB);
    assert_eq!(best.profit, Money { mantissa: 1200, scale: 2 });
}

#[test]
fn best_of_12_and_10_is_the_first_direction() {
    let ab = result(Direction::BuyOnA, 12, 0);
    let ba = result(Direction::BuyOnB, 10, 0);
    assert_eq!(best_direction(Ok(ab), Ok(ba)), Some(ab));
}

#[test]
fn best_on_a_tie_is_the_first_direction() {
    let ab = result(Direction::BuyOnA, 10, 0);
    let ba = result(Direction::BuyOnB, 10, 0);
    assert_eq!(best_direction(Ok(ab), Ok(ba)), Some(ab));
}

#[test]
fn best_on_a_tie_written_at_different_scales_is_the_first_direction() {
    let ab = result(Direction::BuyOnA, 10, 0);
    let ba = result(Direction::BuyOnB, 10_000_000, 6);
    assert_eq!(best_direction(Ok(ab), Ok(ba)), Some(ab));
}

#[test]
fn best_compares_values_not_mantissas() {
    let ab = result(Direction::BuyOnA, 999, 2);
    let ba = result(Direction::BuyOnB, 10, 0);
    assert_eq!(best_direction(Ok(ab), Ok(ba)), Some(ba));
    let ab = result(Direction::BuyOnA, -5, 1);
    let ba = result(Direction::BuyOnB, -1, 0);
    assert_eq!(best_direction(Ok(ab), Ok(ba)), Some(ab));
}
