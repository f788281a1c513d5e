//! A running total without windows.

use vstd::prelude::*;
use crate::arith::{is_unit, models, plus, sum, Op};
use crate::ieee::{Double, ONE};
use crate::metric_config::MetricConfig;

verus! {

/// What a running total adds up.
#[derive(Clone, Copy, Debug, PartialEq, Eq, Structural)]
pub enum StatType {
    /// The recorded values.
    CumulativeSum,
    /// One for each recorded value.
    CumulativeCount,
}

#[derive(Clone, Copy, Debug)]
pub struct CumulativeStat {
    total: Double,
    stat_type: StatType,
}

impl CumulativeStat {
    pub closed spec fn total(self) -> Double {
        self.total
    }

    pub closed spec fn stat_type(self) -> StatType {
        self.stat_type
    }

    /// The total after `value` is recorded.
    pub open spec fn grown(self, m: spec_fn(Op) -> u64, value: Double) -> Double {
        match self.stat_type() {
            StatType::CumulativeSum => sum(m, self.total(), value),
            StatType::CumulativeCount => sum(m, self.total(), Double { bits: ONE }),
        }
    }

    /// A running total that starts at `value`.
    pub fn new(value: Double, stat_type: StatType) -> (stat: CumulativeStat)
        ensures
            stat.total() == value,
            stat.stat_type() == stat_type,
    {
        CumulativeStat { total: value, stat_type }
    }

    /// Adds the value, or one, to the total.
    pub fn record<F: Fn(Op) -> u64>(
        &mut self,
        _config: &MetricConfig,
        value: Double,
        _time_ms: u128,
        fpu: &F,
    )
        requires
            is_unit(*fpu),
        ensures
            forall|m: spec_fn(Op) -> u64| #[trigger]
                models(m, *fpu) ==> final(self).total() == old(self).grown(m, value),
            final(self).stat_type() == old(self).stat_type(),
    {
        match self.stat_type {
            StatType::CumulativeSum => self.total = plus(fpu, self.total, value),
            StatType::CumulativeCount => self.total = plus(fpu, self.total, Double { bits: ONE }),
        }
    }

    /// The total.
    pub fn measure(&mut self, _config: &MetricConfig, _now: u128) -> (r: Double)
        ensures
            r == old(self).total(),
            *final(self) == *old(self),
    {
        self.total
    }
}

} // verus!
