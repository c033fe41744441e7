//! The choice between the two directions of a round trip.

use vstd::prelude::*;
use crate::money::decimal_ge;
use crate::trade::TradeResult;
use crate::units::ArbError;

verus! {

/// What a simulation left: its result, or nothing where it failed.
pub open spec fn outcome_of(res: Result<TradeResult, ArbError>) -> Option<TradeResult> {
    match res {
        Ok(t) => Some(t),
        Err(_) => None,
    }
}

/// The better of two outcomes: the larger profit where both are there, the
/// first on a tie; the one that is there where the other is missing.
pub open spec fn better_of(first: Option<TradeResult>, second: Option<TradeResult>) -> Option<
    TradeResult,
> {
    match (first, second) {
        (Some(x), Some(y)) => if x.profit.units() >= y.profit.units() {
            Some(x)
        } else {
            Some(y)
        },
        (Some(x), None) => Some(x),
        (None, Some(y)) => Some(y),
        (None, None) => None,
    }
}

/// Picks the better of the two simulated directions. `res_ab` is the round
/// trip that buys on venue A, `res_ba` the one that buys on venue B. A failed
/// direction counts as missing and does not hide the other; where both
/// failed there is no result, which is no error.
pub fn best_direction(
    res_ab: Result<TradeResult, ArbError>,
    res_ba: Result<TradeResult, ArbError>,
) -> (r: Option<TradeResult>)
    requires
        res_ab matches Ok(t) ==> t.profit.wf(),
        res_ba matches Ok(t) ==> t.profit.wf(),
    ensures
        r == better_of(outcome_of(res_ab), outcome_of(res_ba)),
        r matches Some(t) ==> t.profit.wf(),
        res_ab is Err && res_ba is Err ==> r is None,
        res_ab matches Ok(x) ==> (res_ba is Err ==> r == Some(x)),
        res_ba matches Ok(y) ==> (res_ab is Err ==> r == Some(y)),
        res_ab matches Ok(x) ==> (res_ba matches Ok(y) ==> r == Some(
            if x.profit.units() >= y.profit.units() {
                x
            } else {
                y
            },
        )),
{
    match (res_ab, res_ba) {
        (Ok(x), Ok(y)) => {
            if decimal_ge(x.profit, y.profit) {
                Some(x)
            } else {
                Some(y)
            }
        },
        (Ok(x), Err(_)) => Some(x),
        (Err(_), Ok(y)) => Some(y),
        (Err(_), Err(_)) => None,
    }
}

/// The choice does not depend on which simulation is looked at first, but
/// for the tie: where the two profits differ, swapping the arguments gives
/// the same result.
pub proof fn lemma_choice_is_symmetric(first: Option<TradeResult>, second: Option<TradeResult>)
    requires
        first matches Some(x) ==> (second matches Some(y) ==> x.profit.units()
            != y.profit.units()),
    ensures
        better_of(first, second) == better_of(second, first),
{
}

} // verus!
