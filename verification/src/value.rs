//! The value that was recorded last.

use vstd::prelude::*;
use crate::ieee::{Double, ZERO};
use crate::metric_config::MetricConfig;

verus! {

#[derive(Clone, Copy, Debug)]
pub struct Value {
    value: Double,
}

impl Default for Value {
    /// A value of zero.
    fn default() -> (v: Self)
        ensures
            v.held() == (Double { bits: ZERO }),
    {
        Value { value: Double { bits: ZERO } }
    }
}

impl Value {
    /// The value that is held.
    pub closed spec fn held(self) -> Double {
        self.value
    }

    /// Holds `value` in place of what was held.
    pub fn record(&mut self, _config: &MetricConfig, value: Double, _time_ms: u128)
        ensures
            final(self).held() == value,
    {
        self.value = value;
    }

    /// The value that was recorded last.
    pub fn measure(&mut self, _config: &MetricConfig, _now: u128) -> (r: Double)
        ensures
            r == old(self).held(),
            *final(self) == *old(self),
    {
        self.value
    }
}

} // verus!
