use arb_engine::money::Money;
use arb_engine::scheduler::{
    gas_estimate, scheduler_poll, scheduler_tick, ArbData, OpportunityLog, SchedulerAction,
    SchedulerState, TickOutcome, GAS_ESTIMATE_USDC,
};
use arb_engine::selector::best_direction;
use arb_engine::trade::{
    simulate_trade_usdc, Direction, SimAction, SimEvent, SimState, TradeResult,
};
use arb_engine::units::ArbError;
use rust_decimal::Decimal;

fn money(mantissa: i128, scale: u32) -> Money {
    Money::new(mantissa, scale).expect("amount in range")
}

fn decimal(m: Money) -> Decimal {
    Decimal::from_i128_with_scale(m.mantissa, m.scale)
}

fn simulate(
    direction: Direction,
    principal: Money,
    gas: Money,
    buy: Option<Vec<u128>>,
    sell: Option<Vec<u128>>,
) -> Result<TradeResult, ArbError> {
    let (mut state, mut action) =
        simulate_trade_usdc(SimState::Ready, SimEvent::Start, direction, principal, gas);
    loop {
        let answer = match action {
            SimAction::RequestBuyQuote(_) => buy.clone(),
            SimAction::RequestSellQuote(_) => sell.clone(),
            SimAction::Deliver(t) => return Ok(t),
            SimAction::Abort(e) => return Err(e),
            SimAction::Nothing => panic!("the driver sent a stray event"),
        };
        let event = match answer {
            Some(amounts) => SimEvent::Quote(amounts),
            None => SimEvent::QuoteFailed,
        };
        let next = simulate_trade_usdc(state, event, direction, principal, gas);
        state = next.0;
        action = next.1;
    }
}

#[test]
fn gas_estimate_is_five_units() {
    assert_eq!(GAS_ESTIMATE_USDC, 5);
    assert_eq!(gas_estimate(), Money { mantissa: 5, scale: 0 });
}

#[test]
fn poll_runs_until_cancelled() {
    assert_eq!(
        scheduler_poll(SchedulerState::Running, false),
        (SchedulerState::Running, SchedulerAction::Evaluate)
    );
    assert_eq!(
        scheduler_poll(SchedulerState::Running, true),
        (SchedulerState::ShuttingDown, SchedulerAction::FlushAndStop)
    );
}

#[test]
fn poll_never_leaves_shutdown() {
    assert_eq!(
        scheduler_poll(SchedulerState::ShuttingDown, false),
        (SchedulerState::ShuttingDown, SchedulerAction::FlushAndStop)
    );
    assert_eq!(
        scheduler_poll(SchedulerState::ShuttingDown, true),
        (SchedulerState::ShuttingDown, SchedulerAction::FlushAndStop)
    );
}

#[test]
fn log_starts_empty_and_keeps_order() {
    let mut log = OpportunityLog::new();
    assert_eq!(log.len(), 0);
    assert_eq!(log.snapshot(), Vec::<ArbData>::new());
    let first = ArbData { timestamp: 1, direction: Direction::BuyOnA, profit: money(5, 0) };
    let second = ArbData { timestamp: 2, direction: Direction::BuyOnB, profit: money(75, 1) };
    log.append(first);
    log.append(second);
    assert_eq!(log.len(), 2);
    assert_eq!(log.snapshot(), vec![first, second]);
}

#[test]
fn snapshot_is_a_copy() {
    let mut log = OpportunityLog::new();
    let first = ArbData { timestamp: 1, direction: Direction::BuyOnA, profit: money(5, 0) };
    log.append(first);
    let before = log.snapshot();
    log.append(ArbData { timestamp: 2, direction: Direction::BuyOnB, profit: money(6, 0) });
    assert_eq!(before, vec![first]);
    assert_eq!(log.snapshot().len(), 2);
}

#[test]
fn tick_records_at_the_threshold() {
    let mut log = OpportunityLog::new();
    let best = TradeResult { direction: Direction::BuyOnA, profit: money(5_000_000, 6) };
    let outcome = scheduler_tick(&mut log, Some(best), money(5, 0), 1_700_000_000);
    let record = ArbData {
        timestamp: 1_700_000_000,
        direction: Direction::BuyOnA,
        profit: money(5_000_000, 6),
    };
    assert_eq!(outcome, TickOutcome::Recorded(record));
    assert_eq!(log.snapshot(), vec![record]);
}

#[test]
fn tick_does_not_record_one_base_unit_below_the_threshold() {
    let mut log = OpportunityLog::new();
    let best = TradeResult { direction: Direction::BuyOnA, profit: money(4_999_999, 6) };
    let outcome = scheduler_tick(&mut log, Some(best), money(5, 0), 1_700_000_000);
    assert_eq!(outcome, TickOutcome::BelowThreshold(best));
    assert_eq!(log.len(), 0);
}

#[test]
fn tick_records_above_the_threshold() {
    let mut log = OpportunityLog::new();
    let best = TradeResult { direction: Direction::BuyOnB, profit: money(5_000_001, 6) };
    let outcome = scheduler_tick(&mut log, Some(best), money(5, 0), 7);
    assert!(matches!(outcome, TickOutcome::Recorded(_)));
    assert_eq!(log.len(), 1);
}

#[test]
fn tick_without_a_result_records_nothing() {
    let mut log = OpportunityLog::new();
    assert_eq!(scheduler_tick(&mut log, None, money(5, 0), 7), TickOutcome::NoResult);
    assert_eq!(log.len(), 0);
}

#[test]
fn tick_appends_after_what_is_there() {
    let mut log = OpportunityLog::new();
    let a = TradeResult { direction: Direction::BuyOnA, profit: money(9, 0) };
    let b = TradeResult { direction: Direction::BuyOnB, profit: money(1, 0) };
    let c = TradeResult { direction: Direction::BuyOnB, profit: money(7, 0) };
    scheduler_tick(&mut log, Some(a), money(5, 0), 1);
    scheduler_tick(&mut log, Some(b), money(5, 0), 2);
    scheduler_tick(&mut log, Some(c), money(5, 0), 3);
    let seen = log.snapshot();
    assert_eq!(seen.len(), 2);
    assert_eq!(seen[0].timestamp, 1);
    assert_eq!(seen[0].direction, Direction::BuyOnA);
    assert_eq!(seen[1].timestamp, 3);
    assert_eq!(seen[1].direction, Direction::BuyOnB);
}

#[test]
fn end_to_end_profit_equal_to_the_threshold_is_recorded() {
    let principal = money(1000, 0);
    let gas = gas_estimate();
    let x: u128 = 385_000_000_000_000_000;
    let ab = simulate(
        Direction::BuyOnA,
        principal,
        gas,
        Some(vec![1_000_000_000, x]),
        Some(vec![x, 1_010_000_000]),
    );
    let ba = simulate(Direction::BuyOnB, principal, gas, None, None);
    let best = best_direction(ab, ba);
    let mut log = OpportunityLog::new();
    let outcome = scheduler_tick(&mut log, best, money(5, 0), 42);
    match outcome {
        TickOutcome::Recorded(record) => {
            assert_eq!(record.timestamp, 42);
            assert_eq!(record.direction, Direction::BuyOnA);
            assert_eq!(decimal(record.profit), Decimal::new(5, 0));
        }
        other => panic!("not recorded: {:?}", other),
    }
    assert_eq!(log.len(), 1);
    assert_eq!(decimal(log.snapshot()[0].profit), Decimal::new(5, 0));
}

#[test]
fn end_to_end_one_failing_venue_leaves_the_other_direction() {
    let principal = money(1000, 0);
    let gas = money(5, 0);
    let ab = simulate(Direction::BuyOnA, principal, gas, None, None);
    let ba = simulate(
        Direction::BuyOnB,
        principal,
        gas,
        Some(vec![1_000_000_000, 9]),
        Some(vec![9, 1_020_000_000]),
    );
    assert_eq!(ab, Err(ArbError::QuoteError));
    let best = best_direction(ab, ba).expect("one direction");
    assert_eq!(best.direction, Direction::BuyOnB);
    assert_eq!(decimal(best.profit), Decimal::new(15, 0));
}

#[test]
fn end_to_end_both_venues_failing_is_no_opportunity() {
    let principal = money(1000, 0);
    let gas = money(5, 0);
    let ab = simulate(Direction::BuyOnA, principal, gas, None, None);
    let ba = simulate(
        Direction::BuyOnB,
        principal,
        gas,
        Some(vec![1_000_000_000, 9]),
        None,
    );
    let best = best_direction(ab, ba);
    assert_eq!(best, None);
    let mut log = OpportunityLog::new();
    assert_eq!(scheduler_tick(&mut log, best, money(5, 0), 42), TickOutcome::NoResult);
    assert_eq!(log.len(), 0);
}
