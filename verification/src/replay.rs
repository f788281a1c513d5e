//! What holds of a windowed statistic over a whole run of observations,
//! whatever the arithmetic: each statement is made for every function `m`
//! that may model the unit.

use vstd::prelude::*;
use crate::arith::Op;
use crate::ieee::{Double, MAX, MIN};
use crate::metric_config::MetricConfig;
use crate::sampled_stat::{events, greatest, least, lemma_record_bounded, StatType, Window};

verus! {

/// One observation: a value and the time at which it is recorded.
pub struct Observation {
    pub value: Double,
    pub time_ms: u128,
}

/// The state that `start` is in after the observations were recorded in
/// their order, with a unit that `m` models.
pub open spec fn replayed(
    start: Window,
    m: spec_fn(Op) -> u64,
    config: MetricConfig,
    observations: Seq<Observation>,
) -> Window
    decreases observations.len(),
{
    if observations.len() == 0 {
        start
    } else {
        replayed(start, m, config, observations.drop_last()).recorded(
            m,
            config,
            observations.last().value,
            observations.last().time_ms,
        )
    }
}

/// The values of a run of observations.
pub open spec fn values(observations: Seq<Observation>) -> Seq<Double> {
    Seq::new(observations.len(), |i: int| observations[i].value)
}

/// The least of a run of values, and the greatest finite number where none
/// is smaller. A NaN counts for nothing.
pub open spec fn least_of(values: Seq<Double>) -> Double
    decreases values.len(),
{
    if values.len() == 0 {
        Double { bits: MAX }
    } else {
        least_of(values.drop_last()).min(values.last())
    }
}

/// The greatest of a run of values, and the least finite number where none
/// is greater. A NaN counts for nothing.
pub open spec fn greatest_of(values: Seq<Double>) -> Double
    decreases values.len(),
{
    if values.len() == 0 {
        Double { bits: MIN }
    } else {
        greatest_of(values.drop_last()).max(values.last())
    }
}

/// Whether a fresh statistic takes all the observations into one sample:
/// none of them finds the sample complete.
pub open spec fn in_one_window(
    stat_type: StatType,
    m: spec_fn(Op) -> u64,
    config: MetricConfig,
    observations: Seq<Observation>,
) -> bool {
    forall|k: int|
        0 <= k < observations.len() ==> !(#[trigger] replayed(
            Window::fresh(stat_type),
            m,
            config,
            observations.take(k),
        )).rotates(config, observations[k].time_ms)
}

/// Whatever is recorded under one configuration, a statistic that started
/// within the configured number of samples stays within it.
pub proof fn lemma_replay_bounded(
    start: Window,
    m: spec_fn(Op) -> u64,
    config: MetricConfig,
    observations: Seq<Observation>,
)
    requires
        start.wf(),
        start.samples.len() <= config.samples,
        config.samples >= 1,
    ensures
        replayed(start, m, config, observations).wf(),
        replayed(start, m, config, observations).samples.len() <= config.samples,
    decreases observations.len(),
{
    if observations.len() > 0 {
        lemma_replay_bounded(start, m, config, observations.drop_last());
        lemma_record_bounded(
            replayed(start, m, config, observations.drop_last()),
            m,
            config,
            observations.last().value,
            observations.last().time_ms,
        );
    }
}

/// A statistic never holds more samples than the configuration allows,
/// however many observations it takes.
pub proof fn lemma_rotation_bounded(
    stat_type: StatType,
    m: spec_fn(Op) -> u64,
    config: MetricConfig,
    observations: Seq<Observation>,
)
    requires
        config.samples >= 1,
    ensures
        replayed(Window::fresh(stat_type), m, config, observations).samples.len()
            <= config.samples,
{
    lemma_replay_bounded(Window::fresh(stat_type), m, config, observations);
}

/// The least of a run of values is no NaN and lies below every value of the
/// run that is none; it is one of the values unless none of them is as small
/// as the greatest finite number.
pub proof fn lemma_least_of(values: Seq<Double>)
    ensures
        !least_of(values).nan(),
        least_of(values).le(Double { bits: MAX }),
        forall|i: int|
            0 <= i < values.len() && !(#[trigger] values[i]).nan() ==> least_of(values).le(
                values[i],
            ),
        least_of(values) == (Double { bits: MAX }) || exists|i: int|
            0 <= i < values.len() && least_of(values) == #[trigger] values[i],
    decreases values.len(),
{
    if values.len() > 0 {
        let before = values.drop_last();
        lemma_least_of(before);
        assert(forall|i: int| 0 <= i < before.len() ==> before[i] == #[trigger] values[i]);
        if least_of(values) != (Double { bits: MAX }) {
            if least_of(values) == values.last() {
                assert(least_of(values) == values[values.len() - 1]);
            } else {
                let i = choose|i: int| 0 <= i < before.len() && least_of(before) == #[trigger] before[i];
                assert(least_of(values) == values[i]);
            }
        }
    }
}

/// The greatest of a run of values is no NaN and lies above every value of
/// the run that is none; it is one of the values unless none of them is as
/// great as the least finite number.
pub proof fn lemma_greatest_of(values: Seq<Double>)
    ensures
        !greatest_of(values).nan(),
        greatest_of(values).ge(Double { bits: MIN }),
        forall|i: int|
            0 <= i < values.len() && !(#[trigger] values[i]).nan() ==> greatest_of(values).ge(
                values[i],
            ),
        greatest_of(values) == (Double { bits: MIN }) || exists|i: int|
            0 <= i < values.len() && greatest_of(values) == #[trigger] values[i],
    decreases values.len(),
{
    if values.len() > 0 {
        let before = values.drop_last();
        lemma_greatest_of(before);
        assert(forall|i: int| 0 <= i < before.len() ==> before[i] == #[trigger] values[i]);
        if greatest_of(values) != (Double { bits: MIN }) {
            if greatest_of(values) == values.last() {
                assert(greatest_of(values) == values[values.len() - 1]);
            } else {
                let i = choose|i: int|
                    0 <= i < before.len() && greatest_of(before) == #[trigger] before[i];
                assert(greatest_of(values) == values[i]);
            }
        }
    }
}

/// A fresh minimum or maximum that has taken all its observations into one
/// sample holds, in that one sample, the extreme of their values and the
/// number of them.
proof fn lemma_one_window(
    stat_type: StatType,
    m: spec_fn(Op) -> u64,
    config: MetricConfig,
    observations: Seq<Observation>,
)
    requires
        stat_type is Min || stat_type is Max,
        config.samples >= 1,
        observations.len() > 0,
        in_one_window(stat_type, m, config, observations),
    ensures
        ({
            let w = replayed(Window::fresh(stat_type), m, config, observations);
            &&& w.current == 0
            &&& w.stat_type == stat_type
            &&& w.samples.len() == 1
            &&& w.samples[0].last_window_ms == observations[0].time_ms
            &&& w.samples[0].event_count == observations.len()
            &&& w.samples[0].value == (if stat_type is Min {
                least_of(values(observations))
            } else {
                greatest_of(values(observations))
            })
        }),
    decreases observations.len(),
{
    let before = observations.drop_last();
    let last = observations.last();
    let start = Window::fresh(stat_type);
    let w = replayed(start, m, config, before);
    assert(observations.take(observations.len() - 1) =~= before);
    assert(!w.rotates(config, last.time_ms));
    assert(values(observations).drop_last() =~= values(before));
    assert(values(observations).last() == last.value);
    if before.len() == 0 {
        assert(values(before) =~= Seq::<Double>::empty());
        assert(observations[0] == last);
    } else {
        assert forall|k: int| 0 <= k < before.len() implies !(#[trigger] replayed(
            start,
            m,
            config,
            before.take(k),
        )).rotates(config, before[k].time_ms) by {
            assert(before.take(k) =~= observations.take(k));
            assert(before[k] == observations[k]);
        }
        lemma_one_window(stat_type, m, config, before);
        assert(before[0] == observations[0]);
    }
    // The last observation finds the one sample current and open.
    let a = w.advanced(config, last.time_ms);
    assert(a == w.started(last.time_ms));
    assert(a.samples.len() == 1 && a.current == 0 && a.stat_type == stat_type);
    assert(a.samples[0].event_count == before.len());
    assert(a.samples[0].event_count < config.event_window);
    assert(a.samples[0].last_window_ms == observations[0].time_ms);
    // It leaves the sample with its value taken in and one more event.
    let r = w.recorded(m, config, last.value, last.time_ms);
    assert(r == replayed(start, m, config, observations));
    assert(r.samples[0].value == stat_type.updated(m, a.samples[0].value, last.value));
    assert(r.samples[0].event_count == observations.len());
    if stat_type is Min {
        assert(a.samples[0].value == least_of(values(before)));
        assert(r.samples[0].value == least_of(values(observations)));
    } else {
        assert(a.samples[0].value == greatest_of(values(before)));
        assert(r.samples[0].value == greatest_of(values(observations)));
    }
}

/// A minimum that has taken all its observations into one sample, and of
/// which nothing is obsolete at `now`, measures the least of the recorded
/// values: no NaN, below every recorded value that is none, and one of the
/// recorded values where any of them is as small as the greatest finite
/// number.
pub proof fn lemma_min_brackets(
    m: spec_fn(Op) -> u64,
    config: MetricConfig,
    observations: Seq<Observation>,
    now: u128,
)
    requires
        config.samples >= 1,
        observations.len() > 0,
        in_one_window(StatType::Min, m, config, observations),
        Window::horizon(config, now) < observations[0].time_ms,
    ensures
        ({
            let end = replayed(Window::fresh(StatType::Min), m, config, observations).purged(
                config,
                now,
            );
            let measured = end.stat_type.combined(m, end.samples);
            &&& measured == least_of(values(observations))
            &&& !measured.nan()
            &&& forall|i: int|
                0 <= i < observations.len() && !(#[trigger] observations[i]).value.nan()
                    ==> measured.le(observations[i].value)
            &&& (exists|i: int|
                0 <= i < observations.len() && (#[trigger] observations[i]).value.le(
                    Double { bits: MAX },
                )) ==> exists|i: int|
                0 <= i < observations.len() && measured == (#[trigger] observations[i]).value
        }),
{
    lemma_one_window(StatType::Min, m, config, observations);
    let w = replayed(Window::fresh(StatType::Min), m, config, observations);
    let end = w.purged(config, now);
    assert(end.samples =~= w.samples);
    let vs = values(observations);
    lemma_least_of(vs);
    assert(end.samples.drop_last() =~= Seq::<crate::sample::Sample>::empty());
    assert(events(end.samples) == observations.len()) by {
        assert(events(end.samples.drop_last()) == 0);
    }
    assert(least(end.samples) == least_of(vs)) by {
        assert(least(end.samples.drop_last()) == (Double { bits: MAX }));
    }
    assert forall|i: int|
        0 <= i < observations.len() && !(#[trigger] observations[i]).value.nan() implies least_of(
        vs,
    ).le(observations[i].value) by {
        assert(vs[i] == observations[i].value);
    }
    if exists|i: int|
        0 <= i < observations.len() && (#[trigger] observations[i]).value.le(Double { bits: MAX }) {
        let j = choose|i: int|
            0 <= i < observations.len() && (#[trigger] observations[i]).value.le(
                Double { bits: MAX },
            );
        assert(vs[j] == observations[j].value);
        if least_of(vs) == (Double { bits: MAX }) {
            assert(observations[j].value == least_of(vs));
        } else {
            let i = choose|i: int| 0 <= i < vs.len() && least_of(vs) == #[trigger] vs[i];
            assert(vs[i] == observations[i].value);
        }
    }
}

/// A maximum that has taken all its observations into one sample, and of
/// which nothing is obsolete at `now`, measures the greatest of the recorded
/// values: no NaN, above every recorded value that is none, and one of the
/// recorded values where any of them is as great as the least finite number.
pub proof fn lemma_max_brackets(
    m: spec_fn(Op) -> u64,
    config: MetricConfig,
    observations: Seq<Observation>,
    now: u128,
)
    requires
        config.samples >= 1,
        observations.len() > 0,
        in_one_window(StatType::Max, m, config, observations),
        Window::horizon(config, now) < observations[0].time_ms,
    ensures
        ({
            let end = replayed(Window::fresh(StatType::Max), m, config, observations).purged(
                config,
                now,
            );
            let measured = end.stat_type.combined(m, end.samples);
            &&& measured == greatest_of(values(observations))
            &&& !measured.nan()
            &&& forall|i: int|
                0 <= i < observations.len() && !(#[trigger] observations[i]).value.nan()
                    ==> measured.ge(observations[i].value)
            &&& (exists|i: int|
                0 <= i < observations.len() && (#[trigger] observations[i]).value.ge(
                    Double { bits: MIN },
                )) ==> exists|i: int|
                0 <= i < observations.len() && measured == (#[trigger] observations[i]).value
        }),
{
    lemma_one_window(StatType::Max, m, config, observations);
    let w = replayed(Window::fresh(StatType::Max), m, config, observations);
    let end = w.purged(config, now);
    assert(end.samples =~= w.samples);
    let vs = values(observations);
    lemma_greatest_of(vs);
    assert(end.samples.drop_last() =~= Seq::<crate::sample::Sample>::empty());
    assert(events(end.samples) == observations.len()) by {
        assert(events(end.samples.drop_last()) == 0);
    }
    assert(greatest(end.samples) == greatest_of(vs)) by {
        assert(greatest(end.samples.drop_last()) == (Double { bits: MIN }));
    }
    assert forall|i: int|
        0 <= i < observations.len() && !(#[trigger] observations[i]).value.nan() implies greatest_of(
        vs,
    ).ge(observations[i].value) by {
        assert(vs[i] == observations[i].value);
    }
    if exists|i: int|
        0 <= i < observations.len() && (#[trigger] observations[i]).value.ge(Double { bits: MIN }) {
        let j = choose|i: int|
            0 <= i < observations.len() && (#[trigger] observations[i]).value.ge(
                Double { bits: MIN },
            );
        assert(vs[j] == observations[j].value);
        if greatest_of(vs) == (Double { bits: MIN }) {
            assert(observations[j].value == greatest_of(vs));
        } else {
            let i = choose|i: int| 0 <= i < vs.len() && greatest_of(vs) == #[trigger] vs[i];
            assert(vs[i] == observations[i].value);
        }
    }
}

} // verus!
