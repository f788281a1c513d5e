//! A rate: what a windowed statistic has gathered, per unit of the time that
//! its samples cover.

use vstd::prelude::*;
use crate::arith::{is_unit, models, over, quotient, Op};
use crate::ieee::Double;
use crate::metric_config::MetricConfig;
use crate::metric_utils::TimeUnit;
use crate::sampled_stat::{lemma_purge_idempotent, oldest_index, SampledStat, Window};

verus! {

/// How a rate estimates the time that its samples cover.
#[derive(Clone, Copy, Debug, PartialEq, Eq, Structural)]
pub enum RateType {
    /// The time counts as at least all but one of the configured windows.
    Standard,
    /// The time counts as at least one window.
    Simple,
}

impl RateType {
    /// The time that the samples of `window` cover at `now`, once the
    /// obsolete ones are purged. It starts from the age of the oldest sample.
    /// The standard estimate adds a whole window for each by which the full
    /// windows in that age fall short of the configured number less one; the
    /// simple estimate is never less than one window.
    pub open spec fn span(self, window: Window, config: MetricConfig, now: u128) -> int {
        let w = window.purged(config, now).started(now);
        let elapsed = w.samples[oldest_index(w.samples)].age(now);
        match self {
            RateType::Standard => {
                let full = elapsed / (config.time_window_ms as int);
                if full < config.samples - 1 {
                    elapsed + (config.samples - 1 - full) * config.time_window_ms
                } else {
                    elapsed
                }
            },
            RateType::Simple => if elapsed >= config.time_window_ms {
                elapsed
            } else {
                config.time_window_ms as int
            },
        }
    }
}

#[derive(Debug, Clone)]
pub struct Rate {
    time_unit: TimeUnit,
    stat: SampledStat,
    rate_type: RateType,
}

/// The state of a rate.
pub struct RateView {
    pub time_unit: TimeUnit,
    pub stat: Window,
    pub rate_type: RateType,
}

impl View for Rate {
    type V = RateView;

    closed spec fn view(&self) -> RateView {
        RateView { time_unit: self.time_unit, stat: self.stat@, rate_type: self.rate_type }
    }
}

/// The standard estimate stays below the configured number of windows taken
/// together, and the simple one is one window or the age of the oldest
/// sample: where the windows taken together fit the widest integer of the
/// machine, so does the span.
pub proof fn lemma_span_fits(rate_type: RateType, window: Window, config: MetricConfig, now: u128)
    requires
        config.samples >= 1,
        config.time_window_ms > 0,
        config.samples * config.time_window_ms <= u128::MAX,
    ensures
        0 <= rate_type.span(window, config, now) <= u128::MAX,
{
    let w = window.purged(config, now).started(now);
    let elapsed = w.samples[oldest_index(w.samples)].age(now);
    let tw = config.time_window_ms as int;
    let n = config.samples as int;
    let full = elapsed / tw;
    assert(0 <= full && full * tw <= elapsed && (n - 1 - full) * tw + full * tw == (n - 1) * tw
        && elapsed - full * tw < tw && (n - 1) * tw + tw == n * tw) by (nonlinear_arith)
        requires
            full == elapsed / tw,
            tw > 0,
            elapsed >= 0,
    ;
    if full < n - 1 {
        assert((n - 1 - full) * tw >= 0) by (nonlinear_arith)
            requires
                n - 1 - full > 0,
                tw > 0,
        ;
    }
}

/// The standard estimate never falls below the configured number of windows
/// less one, and the simple estimate never below one window.
pub proof fn lemma_span_floor(rate_type: RateType, window: Window, config: MetricConfig, now: u128)
    requires
        rate_type is Standard ==> config.time_window_ms > 0,
    ensures
        rate_type is Standard ==> rate_type.span(window, config, now) >= (config.samples - 1)
            * config.time_window_ms,
        rate_type is Simple ==> rate_type.span(window, config, now) >= config.time_window_ms,
{
    if rate_type is Standard {
        let w = window.purged(config, now).started(now);
        let elapsed = w.samples[oldest_index(w.samples)].age(now);
        let tw = config.time_window_ms as int;
        let n = config.samples as int;
        let full = elapsed / tw;
        assert(full * tw <= elapsed && (n - 1 - full) * tw + full * tw == (n - 1) * tw && (full
            >= n - 1 ==> full * tw >= (n - 1) * tw)) by (nonlinear_arith)
            requires
                full == elapsed / tw,
                tw > 0,
                elapsed >= 0,
        ;
    }
}

impl Rate {
    pub fn new(time_unit: TimeUnit, stat: SampledStat, rate_type: RateType) -> (rate: Rate)
        ensures
            rate@ == (RateView { time_unit, stat: stat@, rate_type }),
    {
        Rate { rate_type, stat, time_unit }
    }

    /// How the rate estimates the time that its samples cover.
    pub fn rate_type(&self) -> (rate_type: RateType)
        ensures
            rate_type == self@.rate_type,
    {
        self.rate_type
    }

    /// The unit of time that the rate is per.
    pub fn time_unit(&self) -> (time_unit: TimeUnit)
        ensures
            time_unit == self@.time_unit,
    {
        self.time_unit
    }

    /// Whether the rate can be measured under `config` at any time: the
    /// simple estimate always, the standard one where the configuration has
    /// a sample and a window that lasts, and all its windows taken together
    /// fit the widest integer of the machine.
    pub fn accepts(&self, config: &MetricConfig) -> (ok: bool)
        ensures
            ok == (self@.rate_type is Standard ==> config.samples >= 1 && config.time_window_ms > 0
                && config.samples * config.time_window_ms <= u128::MAX),
            ok ==> forall|now: u128|
                self@.rate_type is Standard ==> 0 <= #[trigger] self@.rate_type.span(
                    self@.stat,
                    *config,
                    now,
                ) <= u128::MAX,
    {
        match self.rate_type {
            RateType::Simple => true,
            RateType::Standard => {
                let ok = config.samples >= 1 && config.time_window_ms > 0 && (
                config.samples as u128).checked_mul(config.time_window_ms).is_some();
                proof {
                    if ok {
                        assert forall|now: u128|
                            0 <= #[trigger] self@.rate_type.span(self@.stat, *config, now)
                                <= u128::MAX by {
                            lemma_span_fits(self@.rate_type, self@.stat, *config, now);
                        }
                    }
                }
                ok
            },
        }
    }

    /// The statistic that the rate is taken of.
    pub fn stat(&self) -> (stat: &SampledStat)
        ensures
            stat@ == self@.stat,
    {
        &self.stat
    }

    /// Hands one observation to the statistic.
    pub fn record<F: Fn(Op) -> u64>(
        &mut self,
        config: &MetricConfig,
        value: Double,
        time_ms: u128,
        fpu: &F,
    )
        requires
            old(self)@.stat.wf(),
            config.samples >= 1,
            is_unit(*fpu),
        ensures
            final(self)@ == (RateView {
                stat: old(self)@.stat.advanced(*config, time_ms).taking(
                    final(self)@.stat.samples[final(self)@.stat.current].value,
                ),
                ..old(self)@
            }),
            forall|m: spec_fn(Op) -> u64|
                #![trigger models(m, *fpu)]
                #![trigger old(self)@.stat.recorded(m, *config, value, time_ms)]
                !old(self)@.stat.stat_type.needs_unit() || models(m, *fpu) ==> final(self)@.stat
                    == old(self)@.stat.recorded(m, *config, value, time_ms),
            final(self)@.stat.wf(),
    {
        self.stat.record(config, value, time_ms, fpu)
    }

    /// The measurement of the statistic, divided by the time that its samples
    /// cover, in the rate's unit.
    pub fn measure<F: Fn(Op) -> u64>(
        &mut self,
        config: &MetricConfig,
        now: u128,
        fpu: &F,
    ) -> (r: Double)
        requires
            is_unit(*fpu),
            old(self)@.rate_type is Standard ==> {
                &&& config.time_window_ms > 0
                &&& config.samples >= 1
                &&& old(self)@.rate_type.span(old(self)@.stat, *config, now) <= u128::MAX
            },
        ensures
            final(self)@ == (RateView {
                stat: old(self)@.stat.purged(*config, now).started(now),
                ..old(self)@
            }),
            forall|m: spec_fn(Op) -> u64| #[trigger]
                models(m, *fpu) ==> r == quotient(
                    m,
                    old(self)@.stat.stat_type.combined(
                        m,
                        old(self)@.stat.purged(*config, now).samples,
                    ),
                    old(self)@.time_unit.converted(
                        m,
                        old(self)@.rate_type.span(old(self)@.stat, *config, now) as u128,
                    ),
                ),
            old(self)@.stat.wf() ==> final(self)@.stat.wf(),
    {
        proof {
            lemma_purge_idempotent(old(self)@.stat, *config, now);
        }
        let value = self.stat.measure(config, now, fpu);
        let window_size = self.window_size(config, now);
        over(fpu, value, self.time_unit.convert(window_size, fpu))
    }

    /// The time that the samples cover at `now`, in milliseconds, after the
    /// obsolete ones are purged: never less than the configured windows less
    /// one by the standard estimate, never less than one window by the simple
    /// one.
    pub fn window_size(&mut self, config: &MetricConfig, now: u128) -> (size: u128)
        requires
            old(self)@.rate_type is Standard ==> {
                &&& config.time_window_ms > 0
                &&& config.samples >= 1
                &&& old(self)@.rate_type.span(old(self)@.stat, *config, now) <= u128::MAX
            },
        ensures
            final(self)@ == (RateView {
                stat: old(self)@.stat.purged(*config, now).started(now),
                ..old(self)@
            }),
            size == old(self)@.rate_type.span(old(self)@.stat, *config, now),
            old(self)@.rate_type is Standard ==> size >= (config.samples - 1)
                * config.time_window_ms,
            old(self)@.rate_type is Simple ==> size >= config.time_window_ms,
            old(self)@.stat.wf() ==> final(self)@.stat.wf(),
    {
        proof {
            lemma_span_floor(old(self)@.rate_type, old(self)@.stat, *config, now);
        }
        self.stat.purge_obsolete_samples(config, now);
        let elapsed = now.saturating_sub(self.stat.oldest(now).last_window_ms);
        match self.rate_type {
            RateType::Standard => {
                let num_full_windows = elapsed / config.time_window_ms;
                let min_full_windows = (config.samples - 1) as u128;
                if num_full_windows < min_full_windows {
                    assert((min_full_windows - num_full_windows) * config.time_window_ms >= 0)
                        by (nonlinear_arith)
                        requires
                            min_full_windows - num_full_windows > 0,
                            config.time_window_ms > 0,
                    ;
                    elapsed + (min_full_windows - num_full_windows) * config.time_window_ms
                } else {
                    elapsed
                }
            },
            RateType::Simple => if elapsed >= config.time_window_ms {
                elapsed
            } else {
                config.time_window_ms
            },
        }
    }
}

} // verus!
