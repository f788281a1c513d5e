//! One time-bounded accumulation bucket of a windowed statistic.

use vstd::prelude::*;
use crate::ieee::Double;
use crate::metric_config::MetricConfig;

verus! {

#[derive(Clone, Copy, Debug)]
pub struct Sample {
    /// The value that the sample starts from and returns to on a reset.
    pub initial_value: Double,
    /// How many events the sample has taken since it was started.
    pub event_count: u64,
    /// When the sample's window started.
    pub last_window_ms: u128,
    pub value: Double,
}

impl Sample {
    /// A sample without events, whose window starts at `now`.
    pub open spec fn fresh(initial_value: Double, now: u128) -> Sample {
        Sample { initial_value, event_count: 0, last_window_ms: now, value: initial_value }
    }

    /// The sample after a reset at `now`.
    pub open spec fn reset_at(self, now: u128) -> Sample {
        Sample::fresh(self.initial_value, now)
    }

    /// How long the sample's window has been open at `time_ms`; 0 where
    /// `time_ms` lies before the start of the window.
    pub open spec fn age(self, time_ms: u128) -> int {
        if time_ms >= self.last_window_ms {
            time_ms - self.last_window_ms
        } else {
            0
        }
    }

    /// Whether the sample has run for `time_window_ms` or taken
    /// `event_window` events.
    pub open spec fn complete(
        self,
        time_ms: u128,
        time_window_ms: u128,
        event_window: u64,
    ) -> bool {
        self.age(time_ms) >= time_window_ms || self.event_count >= event_window
    }

    pub fn new(initial_value: Double, now: u128) -> (sample: Sample)
        ensures
            sample == Sample::fresh(initial_value, now),
    {
        Sample { event_count: 0, initial_value, last_window_ms: now, value: initial_value }
    }

    /// Empties the sample and starts its window anew at `now`.
    pub fn reset(&mut self, now: u128)
        ensures
            *final(self) == old(self).reset_at(now),
    {
        self.event_count = 0;
        self.last_window_ms = now;
        self.value = self.initial_value;
    }

    /// Whether the sample is due for rotation at `time_ms`.
    pub fn is_complete(&self, time_ms: u128, config: &MetricConfig) -> (r: bool)
        ensures
            r == self.complete(time_ms, config.time_window_ms, config.event_window),
    {
        time_ms.saturating_sub(self.last_window_ms) >= config.time_window_ms || self.event_count
            >= config.event_window
    }
}

} // verus!
