//! One directed round trip: buy on one venue, sell on the other.
//!
//! The two quotes come from outside, one after the other, so the simulation
//! is a small state machine: each step takes what has arrived and says what
//! to ask for next, or how the simulation ended.

use vstd::prelude::*;
use crate::money::{
    Money,
    MANTISSA_LIMIT,
    MAX_SCALE,
    pow10,
    magnitude,
    common_scale,
    difference_is_plain,
    decimal_difference,
    decimal_checked_sub,
};
use crate::units::{
    ArbError,
    base_unit,
    base_units_of,
    money_of_base_units,
    lemma_pow10_split,
    usdc_to_wei,
    u256_to_usdc,
};

verus! {

/// Which venue the round trip buys on; it sells on the other one.
#[derive(Clone, Copy, Debug, PartialEq, Eq, Structural)]
pub enum Direction {
    BuyOnA,
    BuyOnB,
}

/// One of the two liquidity venues.
#[derive(Clone, Copy, Debug, PartialEq, Eq, Structural)]
pub enum Venue {
    A,
    B,
}

/// One of the two tokens of a round trip: the quote currency, in which the
/// principal and the profit are counted, and the token bought and sold.
#[derive(Clone, Copy, Debug, PartialEq, Eq, Structural)]
pub enum Token {
    Usdc,
    Weth,
}

/// The path of one hop: the token paid and the token received.
#[derive(Clone, Copy, Debug, PartialEq, Eq, Structural)]
pub struct TokenPath {
    pub input: Token,
    pub output: Token,
}

/// One request to the quote provider.
#[derive(Clone, Copy, Debug, PartialEq, Eq, Structural)]
pub struct QuoteRequest {
    pub venue: Venue,
    pub amount_in: u128,
    pub path: TokenPath,
}

/// The venue a direction buys on.
pub open spec fn buy_venue_of(direction: Direction) -> Venue {
    match direction {
        Direction::BuyOnA => Venue::A,
        Direction::BuyOnB => Venue::B,
    }
}

/// The venue a direction sells on: the other one.
pub open spec fn sell_venue_of(direction: Direction) -> Venue {
    match direction {
        Direction::BuyOnA => Venue::B,
        Direction::BuyOnB => Venue::A,
    }
}

/// The path of the buy leg: the quote currency pays for the token.
pub open spec fn buy_path() -> TokenPath {
    TokenPath { input: Token::Usdc, output: Token::Weth }
}

/// The same hop taken the other way.
pub open spec fn reversed(path: TokenPath) -> TokenPath {
    TokenPath { input: path.output, output: path.input }
}

/// The request of the buy leg.
pub open spec fn buy_request(direction: Direction, amount_in: u128) -> QuoteRequest {
    QuoteRequest { venue: buy_venue_of(direction), amount_in, path: buy_path() }
}

/// The request of the sell leg: on the other venue, along the reversed path.
pub open spec fn sell_request(direction: Direction, amount_in: u128) -> QuoteRequest {
    QuoteRequest { venue: sell_venue_of(direction), amount_in, path: reversed(buy_path()) }
}

impl Direction {
    /// The venue this direction buys on.
    pub fn buy_venue(self) -> (v: Venue)
        ensures
            v == buy_venue_of(self),
    {
        match self {
            Direction::BuyOnA => Venue::A,
            Direction::BuyOnB => Venue::B,
        }
    }

    /// The venue this direction sells on.
    pub fn sell_venue(self) -> (v: Venue)
        ensures
            v == sell_venue_of(self),
            v != buy_venue_of(self),
    {
        match self {
            Direction::BuyOnA => Venue::B,
            Direction::BuyOnB => Venue::A,
        }
    }
}

impl TokenPath {
    /// The path of the buy leg.
    pub fn buy() -> (p: TokenPath)
        ensures
            p == buy_path(),
    {
        TokenPath { input: Token::Usdc, output: Token::Weth }
    }

    /// The same hop taken the other way. Reversing twice gives the path back.
    pub fn reverse(self) -> (p: TokenPath)
        ensures
            p == reversed(self),
            reversed(p) == self,
    {
        TokenPath { input: self.output, output: self.input }
    }
}

/// The outcome of one simulated round trip. The profit may be negative.
#[derive(Clone, Copy, Debug, PartialEq, Eq, Structural)]
pub struct TradeResult {
    pub direction: Direction,
    pub profit: Money,
}

/// The tag under which a direction is reported.
pub fn direction_label(direction: Direction) -> (label: &'static str)
    ensures
        label@ == (match direction {
            Direction::BuyOnA => "BUY_ON_A_SELL_B"@,
            Direction::BuyOnB => "BUY_ON_B_SELL_A"@,
        }),
{
    match direction {
        Direction::BuyOnA => "BUY_ON_A_SELL_B",
        Direction::BuyOnB => "BUY_ON_B_SELL_A",
    }
}

/// The output amount of a quote: its second element, where it has one.
pub open spec fn quoted_output(quote: Seq<u128>) -> Result<u128, ArbError> {
    if quote.len() >= 2 {
        Ok(quote[1])
    } else {
        Err(ArbError::QuoteError)
    }
}

/// Reads the output amount from a quote, after checking its length.
pub fn quote_output(quote: &Vec<u128>) -> (r: Result<u128, ArbError>)
    ensures
        r == quoted_output(quote@),
{
    if quote.len() >= 2 {
        Ok(quote[1])
    } else {
        Err(ArbError::QuoteError)
    }
}

/// `proceeds - principal - gas` as `rust_decimal` computes it, left to right,
/// as mantissa and scale; `None` where a subtraction overflows.
pub open spec fn profit_parts(proceeds: Money, principal: Money, gas: Money) -> Option<(int, nat)> {
    match decimal_difference(
        proceeds.mantissa as int,
        proceeds.scale as nat,
        principal.mantissa as int,
        principal.scale as nat,
    ) {
        None => None,
        Some(d) => decimal_difference(d.0, d.1, gas.mantissa as int, gas.scale as nat),
    }
}

/// The largest of the three scales.
pub open spec fn widest_scale(a: Money, b: Money, c: Money) -> nat {
    let ab = common_scale(a, b);
    if ab >= c.scale {
        ab
    } else {
        c.scale as nat
    }
}

/// Each of the three amounts, written at the widest of their scales, stays
/// below a quarter of the mantissa's range: both subtractions are then exact.
pub open spec fn profit_is_plain(proceeds: Money, principal: Money, gas: Money) -> bool {
    let s = widest_scale(proceeds, principal, gas);
    &&& magnitude(proceeds.at(s)) < MANTISSA_LIMIT / 4
    &&& magnitude(principal.at(s)) < MANTISSA_LIMIT / 4
    &&& magnitude(gas.at(s)) < MANTISSA_LIMIT / 4
}

/// Both subtractions are exact: the first on the operands as given, the
/// second on the first difference as `rust_decimal` wrote it.
pub open spec fn subtracts_plainly(proceeds: Money, principal: Money, gas: Money) -> bool {
    &&& difference_is_plain(proceeds, principal)
    &&& match decimal_difference(
        proceeds.mantissa as int,
        proceeds.scale as nat,
        principal.mantissa as int,
        principal.scale as nat,
    ) {
        Some(d) => difference_is_plain(
            Money { mantissa: d.0 as i128, scale: d.1 as u32 },
            gas,
        ),
        None => true,
    }
}

/// Writing an amount with more fractional digits multiplies its mantissa by
/// a power of ten, and so never makes it smaller.
pub proof fn lemma_rescale(x: Money, s: nat, t: nat)
    requires
        x.scale <= s <= t,
    ensures
        x.at(t) == x.at(s) * pow10((t - s) as nat),
        magnitude(x.at(s)) <= magnitude(x.at(t)),
{
    let a = pow10((s - x.scale) as nat);
    let k = pow10((t - s) as nat);
    let m = x.mantissa as int;
    lemma_pow10_split((s - x.scale) as nat, (t - s) as nat);
    assert(pow10((t - x.scale) as nat) == a * k);
    assert(m * (a * k) == (m * a) * k) by (nonlinear_arith);
    assert(magnitude(m * a) <= magnitude((m * a) * k)) by (nonlinear_arith)
        requires
            k > 0,
    ;
}

proof fn lemma_plain_first(proceeds: Money, principal: Money, gas: Money)
    requires
        proceeds.wf(),
        principal.wf(),
        gas.wf(),
        profit_is_plain(proceeds, principal, gas),
    ensures
        difference_is_plain(proceeds, principal),
{
    let s = widest_scale(proceeds, principal, gas);
    let s1 = common_scale(proceeds, principal);
    lemma_rescale(proceeds, s1, s);
    lemma_rescale(principal, s1, s);
}

proof fn lemma_plain_second(proceeds: Money, principal: Money, gas: Money, d: Money)
    requires
        proceeds.wf(),
        principal.wf(),
        gas.wf(),
        d.wf(),
        profit_is_plain(proceeds, principal, gas),
        d.units() == proceeds.units() - principal.units(),
        d.scale <= common_scale(proceeds, principal),
    ensures
        difference_is_plain(d, gas),
{
    let s = widest_scale(proceeds, principal, gas);
    let s2 = common_scale(d, gas);
    let top = MAX_SCALE as nat;
    let k = pow10((top - s) as nat);
    lemma_pow10_split((top - s) as nat, 0);
    lemma_rescale(proceeds, s, top);
    lemma_rescale(principal, s, top);
    lemma_rescale(d, s, top);
    let p = proceeds.at(s);
    let q = principal.at(s);
    let e = d.at(s);
    assert(e == p - q) by (nonlinear_arith)
        requires
            e * k == p * k - q * k,
            k > 0,
    ;
    lemma_rescale(d, s2, s);
    lemma_rescale(gas, s2, s);
}

/// Computes `proceeds - principal - gas` with `rust_decimal`'s subtraction.
/// Where both subtractions are exact, and so wherever the three amounts stay
/// below a quarter of the mantissa's range at their widest scale, the profit
/// is exactly that difference: nothing is rounded.
pub fn net_profit(proceeds: Money, principal: Money, gas: Money) -> (r: Result<Money, ArbError>)
    requires
        proceeds.wf(),
        principal.wf(),
        gas.wf(),
    ensures
        r matches Ok(p) ==> p.wf(),
        match profit_parts(proceeds, principal, gas) {
            Some(parts) => r matches Ok(p) && p.parts() == parts,
            None => r == Err::<Money, ArbError>(ArbError::ProfitOverflow),
        },
        subtracts_plainly(proceeds, principal, gas) ==> (r matches Ok(p) && p.units()
            == proceeds.units() - principal.units() - gas.units()),
        profit_is_plain(proceeds, principal, gas) ==> (r matches Ok(p) && p.units()
            == proceeds.units() - principal.units() - gas.units()),
{
    proof {
        if profit_is_plain(proceeds, principal, gas) {
            lemma_plain_first(proceeds, principal, gas);
        }
    }
    match decimal_checked_sub(proceeds, principal) {
        None => Err(ArbError::ProfitOverflow),
        Some(d) => {
            proof {
                if profit_is_plain(proceeds, principal, gas) {
                    lemma_plain_second(proceeds, principal, gas, d);
                }
            }
            match decimal_checked_sub(d, gas) {
                None => Err(ArbError::ProfitOverflow),
                Some(p) => Ok(p),
            }
        },
    }
}

/// An amount rebuilt from a mantissa and a scale.
pub open spec fn money_from(parts: (int, nat)) -> Money {
    Money { mantissa: parts.0 as i128, scale: parts.1 as u32 }
}

/// How a round trip ends once the sell leg has returned `proceeds` base
/// units: the proceeds become an amount, and the profit is what is left after
/// the principal and the gas cost.
pub open spec fn settlement(
    direction: Direction,
    proceeds: u128,
    principal: Money,
    gas: Money,
) -> Result<TradeResult, ArbError> {
    if proceeds >= MANTISSA_LIMIT {
        Err(ArbError::ConversionOverflow)
    } else {
        match profit_parts(money_of_base_units(proceeds), principal, gas) {
            None => Err(ArbError::ProfitOverflow),
            Some(parts) => Ok(TradeResult { direction, profit: money_from(parts) }),
        }
    }
}

/// Closes a round trip whose sell leg returned `proceeds` base units.
/// Proceeds beyond the range of `Money` give `ConversionOverflow`.
pub fn settle(direction: Direction, proceeds: u128, principal: Money, gas: Money) -> (r: Result<
    TradeResult,
    ArbError,
>)
    requires
        principal.wf(),
        gas.wf(),
    ensures
        r == settlement(direction, proceeds, principal, gas),
        r matches Ok(t) ==> t.profit.wf() && t.direction == direction,
        proceeds < MANTISSA_LIMIT && profit_is_plain(money_of_base_units(proceeds), principal, gas)
            ==> (r matches Ok(t) && t.profit.units() == proceeds * base_unit() - principal.units()
            - gas.units()),
{
    if proceeds >= MANTISSA_LIMIT as u128 {
        return Err(ArbError::ConversionOverflow);
    }
    let received = u256_to_usdc(proceeds);
    match net_profit(received, principal, gas) {
        Ok(profit) => Ok(TradeResult { direction, profit }),
        Err(e) => Err(e),
    }
}

/// Where a simulation stands.
#[derive(Clone, Copy, Debug, PartialEq, Eq, Structural)]
pub enum SimState {
    /// Nothing has been asked yet.
    Ready,
    /// The buy-leg quote has been asked for.
    AwaitingBuyQuote,
    /// The sell-leg quote has been asked for.
    AwaitingSellQuote,
    /// The simulation has ended, with a result or a failure.
    Finished,
}

/// What the driver reports to a simulation.
#[derive(Debug)]
pub enum SimEvent {
    /// The simulation is to begin.
    Start,
    /// The provider answered the last request with these amounts.
    Quote(Vec<u128>),
    /// The provider failed on the last request.
    QuoteFailed,
}

/// What the driver is to do next.
#[derive(Clone, Copy, Debug, PartialEq, Eq, Structural)]
pub enum SimAction {
    /// Ask the buy venue for a quote on the principal, along the buy path.
    RequestBuyQuote(QuoteRequest),
    /// Ask the sell venue for a quote on what the buy leg returned, along the reversed path.
    RequestSellQuote(QuoteRequest),
    /// The round trip is evaluated.
    Deliver(TradeResult),
    /// This direction has no result.
    Abort(ArbError),
    /// The event does not fit the state and was left aside.
    Nothing,
}

/// The step of a simulation: the next state and the action, for each state
/// and event.
pub open spec fn sim_step(
    state: SimState,
    event: SimEvent,
    direction: Direction,
    principal: Money,
    gas: Money,
) -> (SimState, SimAction) {
    match (state, event) {
        (SimState::Ready, SimEvent::Start) => match base_units_of(principal) {
            Ok(amount_in) => (
                SimState::AwaitingBuyQuote,
                SimAction::RequestBuyQuote(buy_request(direction, amount_in)),
            ),
            Err(e) => (SimState::Finished, SimAction::Abort(e)),
        },
        (SimState::AwaitingBuyQuote, SimEvent::Quote(amounts)) => match quoted_output(amounts@) {
            Ok(intermediate) => (
                SimState::AwaitingSellQuote,
                SimAction::RequestSellQuote(sell_request(direction, intermediate)),
            ),
            Err(e) => (SimState::Finished, SimAction::Abort(e)),
        },
        (SimState::AwaitingSellQuote, SimEvent::Quote(amounts)) => match quoted_output(amounts@) {
            Ok(proceeds) => match settlement(direction, proceeds, principal, gas) {
                Ok(t) => (SimState::Finished, SimAction::Deliver(t)),
                Err(e) => (SimState::Finished, SimAction::Abort(e)),
            },
            Err(e) => (SimState::Finished, SimAction::Abort(e)),
        },
        (SimState::AwaitingBuyQuote, SimEvent::QuoteFailed) => (
            SimState::Finished,
            SimAction::Abort(ArbError::QuoteError),
        ),
        (SimState::AwaitingSellQuote, SimEvent::QuoteFailed) => (
            SimState::Finished,
            SimAction::Abort(ArbError::QuoteError),
        ),
        _ => (state, SimAction::Nothing),
    }
}

/// Advances the simulation of one direction by one event. The driver starts
/// in `Ready` with `Start`, performs each request and reports its outcome,
/// until the state is `Finished`. The sell quote is asked for only after the
/// buy quote has arrived, on the amount that the buy leg returned.
pub fn simulate_trade_usdc(
    state: SimState,
    event: SimEvent,
    direction: Direction,
    principal: Money,
    gas: Money,
) -> (r: (SimState, SimAction))
    requires
        principal.wf(),
        gas.wf(),
    ensures
        r == sim_step(state, event, direction, principal, gas),
        r.1 matches SimAction::Deliver(t) ==> t.profit.wf() && t.direction == direction,
        event matches SimEvent::Quote(amounts) ==> ((state == SimState::AwaitingSellQuote
            && amounts@.len() >= 2 && amounts@[1] < MANTISSA_LIMIT && profit_is_plain(
            money_of_base_units(amounts@[1]),
            principal,
            gas,
        )) ==> (r.1 matches SimAction::Deliver(t) && t.profit.units() == amounts@[1] * base_unit()
            - principal.units() - gas.units())),
{
    match (state, event) {
        (SimState::Ready, SimEvent::Start) => match usdc_to_wei(principal) {
            Ok(amount_in) => (
                SimState::AwaitingBuyQuote,
                SimAction::RequestBuyQuote(
                    QuoteRequest { venue: direction.buy_venue(), amount_in, path: TokenPath::buy() },
                ),
            ),
            Err(e) => (SimState::Finished, SimAction::Abort(e)),
        },
        (SimState::AwaitingBuyQuote, SimEvent::Quote(amounts)) => match quote_output(&amounts) {
            Ok(intermediate) => (
                SimState::AwaitingSellQuote,
                SimAction::RequestSellQuote(
                    QuoteRequest {
                        venue: direction.sell_venue(),
                        amount_in: intermediate,
                        path: TokenPath::buy().reverse(),
                    },
                ),
            ),
            Err(e) => (SimState::Finished, SimAction::Abort(e)),
        },
        (SimState::AwaitingSellQuote, SimEvent::Quote(amounts)) => match quote_output(&amounts) {
            Ok(proceeds) => match settle(direction, proceeds, principal, gas) {
                Ok(t) => (SimState::Finished, SimAction::Deliver(t)),
                Err(e) => (SimState::Finished, SimAction::Abort(e)),
            },
            Err(e) => (SimState::Finished, SimAction::Abort(e)),
        },
        (SimState::AwaitingBuyQuote, SimEvent::QuoteFailed) => (
            SimState::Finished,
            SimAction::Abort(ArbError::QuoteError),
        ),
        (SimState::AwaitingSellQuote, SimEvent::QuoteFailed) => (
            SimState::Finished,
            SimAction::Abort(ArbError::QuoteError),
        ),
        (state, _) => (state, SimAction::Nothing),
    }
}

/// The amounts an event carries: `Some` for a quote, `None` for a failure.
pub open spec fn answer_of(event: SimEvent) -> Option<Seq<u128>> {
    match event {
        SimEvent::Quote(amounts) => Some(amounts@),
        _ => None,
    }
}

/// The output amount of an answer; a failed request has none.
pub open spec fn answered_output(answer: Option<Seq<u128>>) -> Result<u128, ArbError> {
    match answer {
        Some(amounts) => quoted_output(amounts),
        None => Err(ArbError::QuoteError),
    }
}

/// How a whole round trip ends, given what the provider answers on the buy
/// leg and on the sell leg: the principal goes to base units, the output of
/// the buy leg is the input of the sell leg, and the output of the sell leg
/// is settled against the principal and the gas cost. The first failure ends
/// it.
pub open spec fn simulation_outcome(
    direction: Direction,
    principal: Money,
    gas: Money,
    buy: Option<Seq<u128>>,
    sell: Option<Seq<u128>>,
) -> Result<TradeResult, ArbError> {
    match base_units_of(principal) {
        Err(e) => Err(e),
        Ok(_) => match answered_output(buy) {
            Err(e) => Err(e),
            Ok(_) => match answered_output(sell) {
                Err(e) => Err(e),
                Ok(proceeds) => settlement(direction, proceeds, principal, gas),
            },
        },
    }
}

/// What a simulation has delivered: the result, the failure, or nothing yet.
pub open spec fn delivered(action: SimAction) -> Option<Result<TradeResult, ArbError>> {
    match action {
        SimAction::Deliver(t) => Some(Ok(t)),
        SimAction::Abort(e) => Some(Err(e)),
        _ => None,
    }
}

/// A simulation driven from `Ready` ends within three steps, and ends as
/// `simulation_outcome` says: it asks for the buy quote on the principal in
/// base units, then for the sell quote on what the buy leg returned, and once
/// it has delivered or aborted it is `Finished`.
pub proof fn lemma_simulation_runs(
    direction: Direction,
    principal: Money,
    gas: Money,
    buy: SimEvent,
    sell: SimEvent,
)
    requires
        buy != SimEvent::Start,
        sell != SimEvent::Start,
    ensures
        ({
            let first = sim_step(SimState::Ready, SimEvent::Start, direction, principal, gas);
            let second = sim_step(first.0, buy, direction, principal, gas);
            let third = sim_step(second.0, sell, direction, principal, gas);
            let outcome = simulation_outcome(
                direction,
                principal,
                gas,
                answer_of(buy),
                answer_of(sell),
            );
            &&& delivered(first.1) is Some ==> delivered(first.1) == Some(outcome)
                && first.0 == SimState::Finished
            &&& delivered(first.1) is None ==> (first.1 == SimAction::RequestBuyQuote(
                buy_request(direction, base_units_of(principal).unwrap()),
            ) && (delivered(second.1) is Some ==> delivered(second.1) == Some(outcome) && second.0
                == SimState::Finished) && (delivered(second.1) is None ==> second.1
                == SimAction::RequestSellQuote(
                sell_request(direction, answered_output(answer_of(buy)).unwrap()),
            ) && delivered(third.1) == Some(outcome) && third.0 == SimState::Finished))
        }),
{
}

} // verus!
