//! A budget of tokens that refills with time, up to a burst, and is drawn on
//! by what is recorded.

use vstd::prelude::*;
use crate::arith::{
    difference, from_int, is_unit, minus, models, of_int, plus, product, sum, times, Op,
};
use crate::ieee::{Double, MAX};
use crate::metric_config::MetricConfig;
use crate::metric_utils::TimeUnit;

verus! {

#[derive(Clone, Copy, Debug)]
pub struct TokenBucket {
    /// The unit of time that the quota's bound is a rate per.
    pub unit: TimeUnit,
    /// The tokens in hand; negative where more was recorded than there was.
    pub tokens: Double,
    /// When the tokens were last refilled.
    pub last_update_ms: u128,
}

impl TokenBucket {
    /// The most tokens that the bucket holds: what the bound yields over all
    /// the configured samples.
    pub open spec fn burst_of(self, m: spec_fn(Op) -> u64, config: MetricConfig) -> Double {
        product(
            m,
            product(
                m,
                from_int(m, config.samples as int),
                self.unit.converted(m, config.time_window_ms),
            ),
            config.quota->0.bound,
        )
    }

    /// The bucket at `time_ms`, refilled at the rate `quota` for the time
    /// since the last update and held to `burst`.
    pub open spec fn refilled(
        self,
        m: spec_fn(Op) -> u64,
        quota: Double,
        burst: Double,
        time_ms: u128,
    ) -> TokenBucket {
        TokenBucket {
            tokens: burst.min(
                sum(
                    m,
                    self.tokens,
                    product(
                        m,
                        quota,
                        self.unit.converted(m, (time_ms - self.last_update_ms) as u128),
                    ),
                ),
            ),
            last_update_ms: time_ms,
            ..self
        }
    }

    /// The bucket as a measurement at `time_ms` leaves it.
    pub open spec fn measured(
        self,
        m: spec_fn(Op) -> u64,
        config: MetricConfig,
        time_ms: u128,
    ) -> TokenBucket {
        if config.quota is Some {
            self.refilled(m, config.quota->0.bound, self.burst_of(m, config), time_ms)
        } else {
            self
        }
    }

    /// The bucket after `value` is recorded at `time_ms`: refilled, then
    /// drawn on, and still held to the burst. Nothing holds it from below.
    pub open spec fn recorded(
        self,
        m: spec_fn(Op) -> u64,
        config: MetricConfig,
        value: Double,
        time_ms: u128,
    ) -> TokenBucket {
        if config.quota is Some {
            let burst = self.burst_of(m, config);
            let filled = self.refilled(m, config.quota->0.bound, burst, time_ms);
            TokenBucket { tokens: burst.min(difference(m, filled.tokens, value)), ..filled }
        } else {
            self
        }
    }

    /// Refills the bucket and gives the tokens in hand, which are never more
    /// than the burst. Without a quota the bucket is left alone and the answer
    /// is the greatest finite number.
    pub fn measure<F: Fn(Op) -> u64>(
        &mut self,
        config: &MetricConfig,
        time_ms: u128,
        fpu: &F,
    ) -> (r: Double)
        requires
            is_unit(*fpu),
            config.quota is Some ==> time_ms >= old(self).last_update_ms,
        ensures
            forall|m: spec_fn(Op) -> u64| #[trigger]
                models(m, *fpu) ==> *final(self) == old(self).measured(m, *config, time_ms),
            forall|m: spec_fn(Op) -> u64| #[trigger]
                models(m, *fpu) ==> config.quota is Some && !old(self).burst_of(m, *config).nan()
                    ==> final(self).tokens.le(old(self).burst_of(m, *config)),
            config.quota is None ==> *final(self) == *old(self),
            config.quota is Some ==> final(self).last_update_ms == time_ms && final(self).unit
                == old(self).unit,
            r == (if config.quota is Some {
                final(self).tokens
            } else {
                Double { bits: MAX }
            }),
    {
        match config.quota {
            Some(quota) => {
                let burst = self.burst(config, fpu);
                self.refill(quota.bound, burst, time_ms, fpu);
                self.tokens
            },
            None => Double { bits: MAX },
        }
    }

    /// Refills the bucket, then draws `value` from it; the tokens may fall
    /// below zero and are never more than the burst. Without a quota nothing
    /// happens.
    pub fn record<F: Fn(Op) -> u64>(
        &mut self,
        config: &MetricConfig,
        value: Double,
        time_ms: u128,
        fpu: &F,
    )
        requires
            is_unit(*fpu),
            config.quota is Some ==> time_ms >= old(self).last_update_ms,
        ensures
            forall|m: spec_fn(Op) -> u64| #[trigger]
                models(m, *fpu) ==> *final(self) == old(self).recorded(m, *config, value, time_ms),
            forall|m: spec_fn(Op) -> u64| #[trigger]
                models(m, *fpu) ==> config.quota is Some && !old(self).burst_of(m, *config).nan()
                    ==> final(self).tokens.le(old(self).burst_of(m, *config)),
            config.quota is None ==> *final(self) == *old(self),
            config.quota is Some ==> final(self).last_update_ms == time_ms && final(self).unit
                == old(self).unit,
    {
        if let Some(quota) = config.quota {
            let burst = self.burst(config, fpu);
            self.refill(quota.bound, burst, time_ms, fpu);
            self.tokens = burst.min(minus(fpu, self.tokens, value));
        }
    }

    fn refill<F: Fn(Op) -> u64>(&mut self, quota: Double, burst: Double, time_ms: u128, fpu: &F)
        requires
            is_unit(*fpu),
            time_ms >= old(self).last_update_ms,
        ensures
            forall|m: spec_fn(Op) -> u64| #[trigger]
                models(m, *fpu) ==> *final(self) == old(self).refilled(m, quota, burst, time_ms),
            final(self).last_update_ms == time_ms,
            final(self).unit == old(self).unit,
    {
        self.tokens = burst.min(
            plus(
                fpu,
                self.tokens,
                times(fpu, quota, self.unit.convert(time_ms - self.last_update_ms, fpu)),
            ),
        );
        self.last_update_ms = time_ms;
    }

    fn burst<F: Fn(Op) -> u64>(&self, config: &MetricConfig, fpu: &F) -> (r: Double)
        requires
            is_unit(*fpu),
            config.quota is Some,
        ensures
            forall|m: spec_fn(Op) -> u64| #[trigger]
                models(m, *fpu) ==> r == self.burst_of(m, *config),
    {
        let bound = match config.quota {
            Some(quota) => quota.bound,
            None => Double { bits: MAX },
        };
        let windows = of_int(fpu, config.samples as u128);
        let window = self.unit.convert(config.time_window_ms, fpu);
        times(fpu, times(fpu, windows, window), bound)
    }
}

} // verus!
