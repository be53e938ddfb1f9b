//! Recomputing metric snapshots for the current periods: which periods, in
//! what order, and how the run records the outcome.
use vstd::prelude::*;

use crate::text::{owned, push_str};

verus! {

/// The periods metrics are computed over.
#[derive(Debug, Clone, Copy, PartialEq, Eq, Structural)]
pub enum PeriodType {
    Week,
    Month,
    Quarter,
}

/// The current periods, in the order they are recomputed.
pub fn current_periods() -> (r: Vec<PeriodType>)
    ensures
        r@ == seq![PeriodType::Week, PeriodType::Month, PeriodType::Quarter],
{
    let mut v: Vec<PeriodType> = Vec::new();
    v.push(PeriodType::Week);
    v.push(PeriodType::Month);
    v.push(PeriodType::Quarter);
    v
}

/// What a recomputation run decides after a period.
#[derive(Debug, Clone, PartialEq, Eq)]
pub enum SnapshotNext {
    /// Go on with the next period (or complete the run after the last).
    Continue,
    /// Fail the run with this message.
    Fail(String),
}

/// The snapshots a run recomputed so far.
#[derive(Debug, Clone, Copy, PartialEq, Eq, Structural)]
pub struct SnapshotTally {
    pub total: i32,
}

impl SnapshotTally {
    pub fn new() -> (r: SnapshotTally)
        ensures
            r.total == 0,
    {
        SnapshotTally { total: 0 }
    }

    /// Takes a period's outcome (the snapshots recomputed, or the error's
    /// text): counts go to the total; an error fails the run with
    /// `failed to compute {period} snapshots: {error}`.
    pub fn absorb(&mut self, period_name: &str, outcome: Result<i32, String>) -> (r: SnapshotNext)
        requires
            outcome matches Ok(n) ==> i32::MIN <= old(self).total + n <= i32::MAX,
        ensures
            match outcome {
                Ok(n) => final(self).total == old(self).total + n && r == SnapshotNext::Continue,
                Err(e) => final(self).total == old(self).total && (r matches SnapshotNext::Fail(m)
                    && m@ == "failed to compute "@ + period_name@ + " snapshots: "@ + e@),
            },
    {
        match outcome {
            Ok(n) => {
                self.total = self.total + n;
                SnapshotNext::Continue
            },
            Err(e) => {
                let mut m = owned("failed to compute ");
                push_str(&mut m, period_name);
                push_str(&mut m, " snapshots: ");
                push_str(&mut m, e.as_str());
                SnapshotNext::Fail(m)
            },
        }
    }
}

} // verus!
