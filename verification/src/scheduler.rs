//! The polling scheduler and the log of recorded opportunities.
//!
//! The scheduler's decisions are functions from what it knows to what is to
//! be done; the loop around them, which waits, asks for quotes and writes to
//! disk, is the caller's.

use vstd::prelude::*;
use crate::money::{Money, decimal_ge};
use crate::trade::{Direction, TradeResult};
use crate::units::{base_unit, lemma_pow10_split};

verus! {

/// A recorded opportunity: a round trip whose profit reached the threshold.
#[derive(Clone, Copy, Debug, PartialEq, Eq, Structural)]
pub struct ArbData {
    /// Seconds since the epoch at which the opportunity was seen.
    pub timestamp: u64,
    pub direction: Direction,
    pub profit: Money,
}

/// The opportunities recorded since the process began, oldest first.
/// Records are only ever added, whole, at the end.
pub struct OpportunityLog {
    entries: Vec<ArbData>,
}

impl View for OpportunityLog {
    type V = Seq<ArbData>;

    closed spec fn view(&self) -> Seq<ArbData> {
        self.entries@
    }
}

impl OpportunityLog {
    /// An empty log.
    pub fn new() -> (log: OpportunityLog)
        ensures
            log@ == Seq::<ArbData>::empty(),
    {
        OpportunityLog { entries: Vec::new() }
    }

    /// The number of records.
    pub fn len(&self) -> (n: usize)
        ensures
            n == self@.len(),
    {
        self.entries.len()
    }

    /// Adds one record at the end; the records before it stay as they are.
    pub fn append(&mut self, record: ArbData)
        ensures
            final(self)@ == old(self)@.push(record),
    {
        self.entries.push(record);
    }

    /// A copy of all records, in order. The copy shares nothing with the log.
    pub fn snapshot(&self) -> (copy: Vec<ArbData>)
        ensures
            copy@ == self@,
    {
        let mut copy: Vec<ArbData> = Vec::new();
        let mut i: usize = 0;
        while i < self.entries.len()
            invariant
                i <= self.entries.len(),
                copy@ == self.entries@.subrange(0, i as int),
            decreases self.entries.len() - i,
        {
            copy.push(self.entries[i]);
            i += 1;
            assert(copy@ == self.entries@.subrange(0, i as int));
        }
        assert(self.entries@.subrange(0, i as int) == self.entries@);
        copy
    }
}

/// The gas cost charged to every simulated round trip, in whole units of the
/// quote currency.
pub const GAS_ESTIMATE_USDC: i128 = 5;

/// The fixed gas-cost estimate as an amount.
pub fn gas_estimate() -> (gas: Money)
    ensures
        gas == (Money { mantissa: GAS_ESTIMATE_USDC, scale: 0 }),
        gas.wf(),
{
    Money { mantissa: GAS_ESTIMATE_USDC, scale: 0 }
}

/// The two states of the scheduler. `ShuttingDown` is final.
#[derive(Clone, Copy, Debug, PartialEq, Eq, Structural)]
pub enum SchedulerState {
    Running,
    ShuttingDown,
}

/// What the loop does at the top of an iteration.
#[derive(Clone, Copy, Debug, PartialEq, Eq, Structural)]
pub enum SchedulerAction {
    /// Evaluate both directions, handle the outcome, then sleep.
    Evaluate,
    /// Flush the persistence sink a last time and stop.
    FlushAndStop,
}

/// The decision at the top of an iteration.
pub open spec fn poll_step(state: SchedulerState, cancelled: bool) -> (
    SchedulerState,
    SchedulerAction,
) {
    if state == SchedulerState::Running && !cancelled {
        (SchedulerState::Running, SchedulerAction::Evaluate)
    } else {
        (SchedulerState::ShuttingDown, SchedulerAction::FlushAndStop)
    }
}

/// Decides, once per iteration, whether the scheduler goes on. It runs while
/// no cancellation has been seen; once it shuts down it stays shut down.
pub fn scheduler_poll(state: SchedulerState, cancelled: bool) -> (r: (
    SchedulerState,
    SchedulerAction,
))
    ensures
        r == poll_step(state, cancelled),
        state == SchedulerState::ShuttingDown ==> r.0 == SchedulerState::ShuttingDown,
{
    match state {
        SchedulerState::Running => {
            if cancelled {
                (SchedulerState::ShuttingDown, SchedulerAction::FlushAndStop)
            } else {
                (SchedulerState::Running, SchedulerAction::Evaluate)
            }
        },
        SchedulerState::ShuttingDown => (
            SchedulerState::ShuttingDown,
            SchedulerAction::FlushAndStop,
        ),
    }
}

/// How a tick ended.
#[derive(Clone, Copy, Debug, PartialEq, Eq, Structural)]
pub enum TickOutcome {
    /// Both directions failed: nothing to record.
    NoResult,
    /// The best direction stays below the threshold: nothing to record.
    BelowThreshold(TradeResult),
    /// The record was added to the log; it is to be persisted and announced.
    Recorded(ArbData),
}

/// The outcome of a tick: an opportunity exactly where there is a result
/// whose profit is at least `min_profit`.
pub open spec fn tick_outcome(best: Option<TradeResult>, min_profit: Money, timestamp: u64)
    -> TickOutcome {
    match best {
        None => TickOutcome::NoResult,
        Some(t) => if t.profit.units() >= min_profit.units() {
            TickOutcome::Recorded(
                ArbData { timestamp, direction: t.direction, profit: t.profit },
            )
        } else {
            TickOutcome::BelowThreshold(t)
        },
    }
}

/// The log after a tick: one record longer where the tick recorded one,
/// unchanged otherwise.
pub open spec fn log_after(before: Seq<ArbData>, outcome: TickOutcome) -> Seq<ArbData> {
    match outcome {
        TickOutcome::Recorded(record) => before.push(record),
        _ => before,
    }
}

/// Handles the outcome of one evaluation. A result whose profit reaches
/// `min_profit`, the bound included, is recorded: once, at the end of the
/// log. Anything else leaves the log as it is.
pub fn scheduler_tick(
    log: &mut OpportunityLog,
    best: Option<TradeResult>,
    min_profit: Money,
    timestamp: u64,
) -> (r: TickOutcome)
    requires
        min_profit.wf(),
        best matches Some(t) ==> t.profit.wf(),
    ensures
        r == tick_outcome(best, min_profit, timestamp),
        final(log)@ == log_after(old(log)@, r),
        final(log)@.len() == old(log)@.len() + 1 <==> (best matches Some(t) && t.profit.units()
            >= min_profit.units()),
        old(log)@.is_prefix_of(final(log)@),
{
    match best {
        None => TickOutcome::NoResult,
        Some(t) => {
            if decimal_ge(t.profit, min_profit) {
                let record = ArbData { timestamp, direction: t.direction, profit: t.profit };
                log.append(record);
                TickOutcome::Recorded(record)
            } else {
                TickOutcome::BelowThreshold(t)
            }
        },
    }
}

/// The threshold is an inclusive bound: a profit equal to it is recorded, a
/// profit one base unit below it is not.
pub proof fn lemma_threshold_is_inclusive(
    at_threshold: TradeResult,
    just_below: TradeResult,
    min_profit: Money,
    timestamp: u64,
)
    requires
        at_threshold.profit.units() == min_profit.units(),
        just_below.profit.units() == min_profit.units() - base_unit(),
    ensures
        tick_outcome(Some(at_threshold), min_profit, timestamp) is Recorded,
        tick_outcome(Some(just_below), min_profit, timestamp) == TickOutcome::BelowThreshold(
            just_below,
        ),
{
    lemma_pow10_split(22, 0);
}

} // verus!
