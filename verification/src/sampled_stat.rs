//! A windowed statistic: a ring of samples that is rotated as windows
//! complete, updated once per observation and combined on measurement.

use vstd::prelude::*;
use crate::arith::{from_int, is_unit, models, of_int, over, plus, quotient, sum, Op};
use crate::ieee::{Double, MAX, MIN, NAN, ONE, ZERO};
use crate::metric_config::MetricConfig;
use crate::sample::Sample;

verus! {

/// What a windowed statistic computes over its samples.
#[derive(Clone, Copy, Debug, PartialEq, Eq, Structural)]
pub enum StatType {
    Avg,
    Min,
    Max,
    WindowedSum,
    WindowedCount,
}

/// How many events a run of samples has taken.
pub open spec fn events(samples: Seq<Sample>) -> int
    decreases samples.len(),
{
    if samples.len() == 0 {
        0
    } else {
        events(samples.drop_last()) + samples.last().event_count
    }
}

/// The values of a run of samples, added up from zero in their order.
pub open spec fn total(m: spec_fn(Op) -> u64, samples: Seq<Sample>) -> Double
    decreases samples.len(),
{
    if samples.len() == 0 {
        Double { bits: ZERO }
    } else {
        sum(m, total(m, samples.drop_last()), samples.last().value)
    }
}

/// The values of those samples that have taken an event, added up from zero
/// in their order.
pub open spec fn total_of_used(m: spec_fn(Op) -> u64, samples: Seq<Sample>) -> Double
    decreases samples.len(),
{
    if samples.len() == 0 {
        Double { bits: ZERO }
    } else if samples.last().event_count > 0 {
        sum(m, total_of_used(m, samples.drop_last()), samples.last().value)
    } else {
        total_of_used(m, samples.drop_last())
    }
}

/// The least value of a run of samples, and the greatest finite number where
/// none is smaller.
pub open spec fn least(samples: Seq<Sample>) -> Double
    decreases samples.len(),
{
    if samples.len() == 0 {
        Double { bits: MAX }
    } else {
        least(samples.drop_last()).min(samples.last().value)
    }
}

/// The greatest value of a run of samples, and the least finite number where
/// none is greater.
pub open spec fn greatest(samples: Seq<Sample>) -> Double
    decreases samples.len(),
{
    if samples.len() == 0 {
        Double { bits: MIN }
    } else {
        greatest(samples.drop_last()).max(samples.last().value)
    }
}

/// The place of the sample whose window started first; of several that
/// started together, the one that stands first.
pub open spec fn oldest_index(samples: Seq<Sample>) -> int
    decreases samples.len(),
{
    if samples.len() <= 1 {
        0
    } else {
        let before = oldest_index(samples.drop_last());
        if samples.last().last_window_ms < samples[before].last_window_ms {
            samples.len() - 1
        } else {
            before
        }
    }
}

impl StatType {
    /// The value that a sample of this kind starts from: the neutral element
    /// of the kind's operation.
    pub open spec fn initial_value(self) -> Double {
        match self {
            StatType::Min => Double { bits: MAX },
            StatType::Max => Double { bits: MIN },
            _ => Double { bits: ZERO },
        }
    }

    /// The name of the Java class of the statistics of this kind.
    pub open spec fn java_name(self) -> Seq<char> {
        match self {
            StatType::Avg => "org/apache/kafka/common/metrics/stats/Avg"@,
            StatType::Min => "org/apache/kafka/common/metrics/stats/Min"@,
            StatType::Max => "org/apache/kafka/common/metrics/stats/Max"@,
            StatType::WindowedSum => "org/apache/kafka/common/metrics/stats/WindowedSum"@,
            StatType::WindowedCount => "org/apache/kafka/common/metrics/stats/WindowedCount"@,
        }
    }

    /// The Java class of the statistics of this kind.
    pub fn java_class(&self) -> (name: &'static str)
        ensures
            name@ == self.java_name(),
    {
        match self {
            StatType::Avg => "org/apache/kafka/common/metrics/stats/Avg",
            StatType::Min => "org/apache/kafka/common/metrics/stats/Min",
            StatType::Max => "org/apache/kafka/common/metrics/stats/Max",
            StatType::WindowedSum => "org/apache/kafka/common/metrics/stats/WindowedSum",
            StatType::WindowedCount => "org/apache/kafka/common/metrics/stats/WindowedCount",
        }
    }

    /// Whether the kind adds its values up, and so goes by the arithmetic
    /// unit; the extremes are decided on the numbers as they stand.
    pub open spec fn needs_unit(self) -> bool {
        self is Avg || self is WindowedSum || self is WindowedCount
    }

    /// The value of a sample that held `current` and takes the observation
    /// `value`.
    pub open spec fn updated(
        self,
        m: spec_fn(Op) -> u64,
        current: Double,
        value: Double,
    ) -> Double {
        match self {
            StatType::Avg | StatType::WindowedSum => sum(m, current, value),
            StatType::Min => current.min(value),
            StatType::Max => current.max(value),
            StatType::WindowedCount => sum(m, current, Double { bits: ONE }),
        }
    }

    /// The one measurement that a run of samples amounts to.
    pub open spec fn combined(self, m: spec_fn(Op) -> u64, samples: Seq<Sample>) -> Double {
        match self {
            StatType::Avg => if events(samples) == 0 {
                Double { bits: NAN }
            } else {
                quotient(m, total_of_used(m, samples), from_int(m, events(samples)))
            },
            StatType::Min => if events(samples) == 0 {
                Double { bits: NAN }
            } else {
                least(samples)
            },
            StatType::Max => if events(samples) == 0 {
                Double { bits: NAN }
            } else {
                greatest(samples)
            },
            StatType::WindowedSum | StatType::WindowedCount => total(m, samples),
        }
    }
}

/// The state of a windowed statistic.
pub struct Window {
    pub initial_value: Double,
    /// The place in the ring of the sample that takes the observations.
    pub current: int,
    pub samples: Seq<Sample>,
    pub stat_type: StatType,
}

impl Window {
    /// The state of a statistic of the given kind that has no sample yet.
    pub open spec fn fresh(stat_type: StatType) -> Window {
        Window {
            initial_value: stat_type.initial_value(),
            current: 0,
            samples: Seq::empty(),
            stat_type,
        }
    }

    /// The samples start from the neutral value of the kind, and the ring
    /// index points at a sample, or at the place of the first one while there
    /// is none.
    pub open spec fn wf(self) -> bool {
        &&& self.initial_value == self.stat_type.initial_value()
        &&& 0 <= self.current
        &&& self.samples.len() == 0 ==> self.current == 0
        &&& self.samples.len() > 0 ==> self.current < self.samples.len()
    }

    /// The state with its first sample, which is made at `time_ms` where
    /// there is none yet.
    pub open spec fn started(self, time_ms: u128) -> Window {
        if self.samples.len() == 0 {
            Window { samples: seq![Sample::fresh(self.initial_value, time_ms)], ..self }
        } else {
            self
        }
    }

    /// Whether an observation at `time_ms` finds the current sample complete.
    pub open spec fn rotates(self, config: MetricConfig, time_ms: u128) -> bool {
        let w = self.started(time_ms);
        w.samples[w.current].complete(time_ms, config.time_window_ms, config.event_window)
    }

    /// The state in which the sample for an observation at `time_ms` is
    /// current: where the current sample is complete, the ring index moves on
    /// by one, modulo the configured number of samples, to a sample that is
    /// made anew or, where the place is taken, reset.
    pub open spec fn advanced(self, config: MetricConfig, time_ms: u128) -> Window {
        let w = self.started(time_ms);
        if self.rotates(config, time_ms) {
            let next = (w.current + 1) % (config.samples as int);
            if next >= w.samples.len() {
                Window {
                    current: next,
                    samples: w.samples.push(Sample::fresh(w.initial_value, time_ms)),
                    ..w
                }
            } else {
                Window {
                    current: next,
                    samples: w.samples.update(next, w.samples[next].reset_at(time_ms)),
                    ..w
                }
            }
        } else {
            w
        }
    }

    /// The state in which the current sample holds `value` and has counted
    /// one more event.
    pub open spec fn taking(self, value: Double) -> Window {
        let s = self.samples[self.current];
        Window {
            samples: self.samples.update(
                self.current,
                Sample { value, event_count: (s.event_count + 1) as u64, ..s },
            ),
            ..self
        }
    }

    /// The state after the observation `value` at `time_ms`: the sample that
    /// is then current takes the value and counts one more event. The count
    /// stays in range: a sample that has reached the event window, and so the
    /// greatest count at the latest, is complete and gives way to one that
    /// starts from zero.
    pub open spec fn recorded(
        self,
        m: spec_fn(Op) -> u64,
        config: MetricConfig,
        value: Double,
        time_ms: u128,
    ) -> Window {
        let w = self.advanced(config, time_ms);
        w.taking(w.stat_type.updated(m, w.samples[w.current].value, value))
    }

    /// The latest start of a window that is obsolete at `now`; negative while
    /// it is too early for any sample to be obsolete.
    pub open spec fn horizon(config: MetricConfig, now: u128) -> int {
        now - config.samples * config.time_window_ms
    }

    /// The state in which every sample that is obsolete at `now` has been
    /// reset at `now`.
    pub open spec fn purged(self, config: MetricConfig, now: u128) -> Window {
        Window {
            samples: Seq::new(
                self.samples.len(),
                |i: int|
                    if self.samples[i].last_window_ms <= Window::horizon(config, now) {
                        self.samples[i].reset_at(now)
                    } else {
                        self.samples[i]
                    },
            ),
            ..self
        }
    }
}

/// A windowed statistic of one kind.
#[derive(Debug, Clone)]
pub struct SampledStat {
    initial_value: Double,
    current: usize,
    samples: Vec<Sample>,
    stat_type: StatType,
}

impl View for SampledStat {
    type V = Window;

    closed spec fn view(&self) -> Window {
        Window {
            initial_value: self.initial_value,
            current: self.current as int,
            samples: self.samples@,
            stat_type: self.stat_type,
        }
    }
}

/// The oldest sample is one of the samples, none started before it, and
/// those that stand before it started later.
pub proof fn lemma_oldest_index(samples: Seq<Sample>)
    requires
        samples.len() > 0,
    ensures
        0 <= oldest_index(samples) < samples.len(),
        forall|j: int|
            0 <= j < samples.len() ==> samples[oldest_index(samples)].last_window_ms
                <= #[trigger] samples[j].last_window_ms,
        forall|j: int|
            0 <= j < oldest_index(samples) ==> samples[oldest_index(samples)].last_window_ms
                < #[trigger] samples[j].last_window_ms,
    decreases samples.len(),
{
    if samples.len() > 1 {
        lemma_oldest_index(samples.drop_last());
        let before = oldest_index(samples.drop_last());
        assert(forall|j: int|
            0 <= j < samples.len() - 1 ==> samples.drop_last()[j] == #[trigger] samples[j]);
    }
}

/// Purging twice at the same time leaves what purging once leaves.
pub proof fn lemma_purge_idempotent(w: Window, config: MetricConfig, now: u128)
    ensures
        w.purged(config, now).purged(config, now) == w.purged(config, now),
{
    assert(w.purged(config, now).purged(config, now).samples =~= w.purged(config, now).samples);
}

/// An observation leaves a well-formed ring with at least one sample, takes
/// no sample away, and adds none beyond the configured number.
pub proof fn lemma_record_bounded(
    w: Window,
    m: spec_fn(Op) -> u64,
    config: MetricConfig,
    value: Double,
    time_ms: u128,
)
    requires
        w.wf(),
        config.samples >= 1,
    ensures
        w.recorded(m, config, value, time_ms).wf(),
        w.recorded(m, config, value, time_ms).samples.len() >= 1,
        w.recorded(m, config, value, time_ms).samples.len() >= w.samples.len(),
        w.recorded(m, config, value, time_ms).samples.len() <= config.samples
            || w.recorded(m, config, value, time_ms).samples.len() == w.samples.len(),
{
    let s = w.started(time_ms);
    let next = (s.current + 1) % (config.samples as int);
    assert(0 <= next <= s.current + 1 && next < config.samples) by (nonlinear_arith)
        requires
            next == (s.current + 1) % (config.samples as int),
            s.current >= 0,
            config.samples >= 1,
    ;
}

impl SampledStat {
    /// A statistic of the given kind, without samples.
    pub fn new(stat_type: StatType) -> (stat: SampledStat)
        ensures
            stat@ == Window::fresh(stat_type),
            stat@.wf(),
    {
        let initial_value = match stat_type {
            StatType::Avg => Double { bits: ZERO },
            StatType::Min => Double { bits: MAX },
            StatType::Max => Double { bits: MIN },
            StatType::WindowedSum | StatType::WindowedCount => Double { bits: ZERO },
        };
        SampledStat { initial_value, current: 0, samples: Vec::new(), stat_type }
    }

    /// What the statistic computes over its samples.
    pub fn stat_type(&self) -> (stat_type: StatType)
        ensures
            stat_type == self@.stat_type,
    {
        self.stat_type
    }

    /// The samples that the statistic holds, in the order of the ring.
    pub fn samples(&self) -> (samples: &[Sample])
        ensures
            samples@ == self@.samples,
    {
        self.samples.as_slice()
    }

    /// Takes one observation: rotates the ring where the current sample is
    /// complete, then lets the current sample take the value and count the
    /// event.
    pub fn record<F: Fn(Op) -> u64>(
        &mut self,
        config: &MetricConfig,
        value: Double,
        time_ms: u128,
        fpu: &F,
    )
        requires
            old(self)@.wf(),
            config.samples >= 1,
            is_unit(*fpu),
        ensures
            final(self)@ == old(self)@.advanced(*config, time_ms).taking(
                final(self)@.samples[final(self)@.current].value,
            ),
            forall|m: spec_fn(Op) -> u64|
                #![trigger models(m, *fpu)]
                #![trigger old(self)@.recorded(m, *config, value, time_ms)]
                !old(self)@.stat_type.needs_unit() || models(m, *fpu) ==> final(self)@
                    == old(self)@.recorded(m, *config, value, time_ms),
            final(self)@.wf(),
            final(self)@.samples.len() <= config.samples
                || final(self)@.samples.len() == old(self)@.samples.len(),
    {
        if self.samples.len() == 0 {
            self.samples.push(Sample::new(self.initial_value, time_ms));
        }
        assert(self@.samples =~= old(self)@.started(time_ms).samples);
        if self.samples[self.current].is_complete(time_ms, config) {
            let ghost before = self.current as int;
            self.current = (self.current + 1) % (config.samples as usize);
            assert(self.current <= before + 1 && self.current < config.samples) by (nonlinear_arith)
                requires
                    self.current == (before + 1) % (config.samples as int),
                    before >= 0,
                    config.samples >= 1,
            ;
            if self.current >= self.samples.len() {
                self.samples.push(Sample::new(self.initial_value, time_ms));
            } else {
                let mut sample = self.samples[self.current];
                sample.reset(time_ms);
                self.samples[self.current] = sample;
            }
        }
        assert(self@.samples =~= old(self)@.advanced(*config, time_ms).samples);
        assert(self@ == old(self)@.advanced(*config, time_ms));
        let mut sample = self.samples[self.current];
        SampledStat::update(&mut sample, value, self.stat_type, fpu);
        sample.event_count = sample.event_count + 1;
        self.samples[self.current] = sample;
        assert(self@.samples =~= old(self)@.advanced(*config, time_ms).taking(sample.value).samples);
    }

    /// Purges the obsolete samples and combines the others into one value.
    pub fn measure<F: Fn(Op) -> u64>(
        &mut self,
        config: &MetricConfig,
        now: u128,
        fpu: &F,
    ) -> (r: Double)
        requires
            is_unit(*fpu),
        ensures
            final(self)@ == old(self)@.purged(*config, now),
            forall|m: spec_fn(Op) -> u64|
                #![trigger models(m, *fpu)]
                #![trigger final(self)@.stat_type.combined(m, final(self)@.samples)]
                !old(self)@.stat_type.needs_unit() || models(m, *fpu) ==> r
                    == final(self)@.stat_type.combined(m, final(self)@.samples),
            old(self)@.wf() ==> final(self)@.wf(),
    {
        self.purge_obsolete_samples(config, now);
        self.combine(self.samples.as_slice(), fpu)
    }

    /// The sample that takes the observations, made at `time_ms` where the
    /// statistic has none yet.
    pub fn current(&mut self, time_ms: u128) -> (sample: &mut Sample)
        requires
            old(self)@.wf(),
        ensures
            *sample == old(self)@.started(time_ms).samples[old(self)@.current],
            final(self)@ == (Window {
                samples: old(self)@.started(time_ms).samples.update(
                    old(self)@.current,
                    *final(sample),
                ),
                ..old(self)@
            }),
            final(self)@.wf(),
    {
        if self.samples.len() == 0 {
            self.samples.push(Sample::new(self.initial_value, time_ms));
        }
        assert(self@.samples =~= old(self)@.started(time_ms).samples);
        &mut self.samples[self.current]
    }

    /// The sample whose window started first, made at `now` where the
    /// statistic has none yet. No sample started before it, and those that
    /// stand before it in the ring started later.
    pub fn oldest(&mut self, now: u128) -> (sample: &Sample)
        ensures
            final(self)@ == old(self)@.started(now),
            old(self)@.wf() ==> final(self)@.wf(),
            0 <= oldest_index(final(self)@.samples) < final(self)@.samples.len(),
            *sample == final(self)@.samples[oldest_index(final(self)@.samples)],
            forall|j: int|
                0 <= j < final(self)@.samples.len() ==> sample.last_window_ms <= (
                #[trigger] final(self)@.samples[j]).last_window_ms,
            forall|j: int|
                0 <= j < oldest_index(final(self)@.samples) ==> sample.last_window_ms < (
                #[trigger] final(self)@.samples[j]).last_window_ms,
    {
        if self.samples.len() == 0 {
            self.samples.push(Sample::new(self.initial_value, now));
        }
        assert(self@.samples =~= old(self)@.started(now).samples);
        let mut at: usize = 0;
        let mut i: usize = 1;
        while i < self.samples.len()
            invariant
                1 <= i <= self.samples.len(),
                at == oldest_index(self.samples@.take(i as int)),
                at < i,
            decreases self.samples.len() - i,
        {
            assert(self.samples@.take(i + 1).drop_last() =~= self.samples@.take(i as int));
            if self.samples[i].last_window_ms < self.samples[at].last_window_ms {
                at = i;
            }
            i = i + 1;
        }
        proof {
            assert(self.samples@.take(i as int) =~= self.samples@);
            lemma_oldest_index(self.samples@);
        }
        &self.samples[at]
    }

    fn update<F: Fn(Op) -> u64>(sample: &mut Sample, value: Double, stat_type: StatType, fpu: &F)
        requires
            is_unit(*fpu),
        ensures
            *final(sample) == (Sample { value: final(sample).value, ..*old(sample) }),
            forall|m: spec_fn(Op) -> u64|
                #![trigger models(m, *fpu)]
                #![trigger stat_type.updated(m, old(sample).value, value)]
                !stat_type.needs_unit() || models(m, *fpu) ==> final(sample).value
                    == stat_type.updated(m, old(sample).value, value),
    {
        match stat_type {
            StatType::Avg | StatType::WindowedSum => sample.value = plus(fpu, sample.value, value),
            StatType::Min => sample.value = sample.value.min(value),
            StatType::Max => sample.value = sample.value.max(value),
            StatType::WindowedCount => sample.value = plus(fpu, sample.value, Double { bits: ONE }),
        }
    }

    /// Combines samples into one value, by the kind of the statistic: the
    /// average of the values over the events, their least, their greatest, or
    /// their sum. An average or an extreme of no event is a NaN.
    pub fn combine<F: Fn(Op) -> u64>(&self, samples: &[Sample], fpu: &F) -> (r: Double)
        requires
            is_unit(*fpu),
        ensures
            forall|m: spec_fn(Op) -> u64|
                #![trigger models(m, *fpu)]
                #![trigger self@.stat_type.combined(m, samples@)]
                !self@.stat_type.needs_unit() || models(m, *fpu) ==> r == self@.stat_type.combined(
                    m,
                    samples@,
                ),
    {
        let mut count: u128 = 0;
        let mut all = Double { bits: ZERO };
        let mut used = Double { bits: ZERO };
        let mut low = Double { bits: MAX };
        let mut high = Double { bits: MIN };
        let mut i: usize = 0;
        while i < samples.len()
            invariant
                i <= samples.len(),
                is_unit(*fpu),
                count == events(samples@.take(i as int)),
                count <= i * 0xffff_ffff_ffff_ffff,
                forall|m: spec_fn(Op) -> u64| #[trigger]
                    models(m, *fpu) ==> {
                        &&& self@.stat_type is WindowedSum || self@.stat_type is WindowedCount
                            ==> all == total(m, samples@.take(i as int))
                        &&& self@.stat_type is Avg ==> used == total_of_used(
                            m,
                            samples@.take(i as int),
                        )
                    },
                self@.stat_type is Min ==> low == least(samples@.take(i as int)),
                self@.stat_type is Max ==> high == greatest(samples@.take(i as int)),
            decreases samples.len() - i,
        {
            assert(samples@.take(i + 1).drop_last() =~= samples@.take(i as int));
            let sample = samples[i];
            count = count + sample.event_count as u128;
            match self.stat_type {
                StatType::Avg => {
                    if sample.event_count > 0 {
                        used = plus(fpu, used, sample.value);
                    }
                },
                StatType::Min => {
                    low = low.min(sample.value);
                },
                StatType::Max => {
                    high = high.max(sample.value);
                },
                StatType::WindowedSum | StatType::WindowedCount => {
                    all = plus(fpu, all, sample.value);
                },
            }
            i = i + 1;
        }
        assert(samples@.take(i as int) =~= samples@);
        match self.stat_type {
            StatType::Avg => if count == 0 {
                Double { bits: NAN }
            } else {
                over(fpu, used, of_int(fpu, count))
            },
            StatType::Min => if count == 0 {
                Double { bits: NAN }
            } else {
                low
            },
            StatType::Max => if count == 0 {
                Double { bits: NAN }
            } else {
                high
            },
            StatType::WindowedSum | StatType::WindowedCount => all,
        }
    }

    /// Resets every sample that is obsolete at `now`: one whose window
    /// started no later than the configured number of windows before `now`.
    /// While less time than that has passed in all, nothing is reset.
    pub fn purge_obsolete_samples(&mut self, config: &MetricConfig, now: u128)
        ensures
            final(self)@ == old(self)@.purged(*config, now),
            old(self)@.wf() ==> final(self)@.wf(),
    {
        let span = (config.samples as u128).checked_mul(config.time_window_ms);
        let horizon = match span {
            Some(span) => now.checked_sub(span),
            None => None,
        };
        if let Some(max_window_ms) = horizon {
            let mut i: usize = 0;
            while i < self.samples.len()
                invariant
                    i <= self.samples.len(),
                    self.samples.len() == old(self).samples.len(),
                    self.initial_value == old(self).initial_value,
                    self.current == old(self).current,
                    self.stat_type == old(self).stat_type,
                    max_window_ms == Window::horizon(*config, now),
                    forall|j: int|
                        0 <= j < i ==> self.samples@[j] == old(self)@.purged(*config, now).samples[j],
                    forall|j: int|
                        i <= j < self.samples.len() ==> self.samples@[j] == old(self).samples@[j],
                decreases self.samples.len() - i,
            {
                if self.samples[i].last_window_ms <= max_window_ms {
                    let mut sample = self.samples[i];
                    sample.reset(now);
                    self.samples[i] = sample;
                }
                i = i + 1;
            }
            assert(self@.samples =~= old(self)@.purged(*config, now).samples);
        } else {
            assert(self@.samples =~= old(self)@.purged(*config, now).samples);
        }
    }
}

} // verus!
