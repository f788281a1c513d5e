//! The windowing parameters that every statistic is recorded and measured
//! under.

use vstd::prelude::*;
use crate::quota::Quota;
use crate::sensor_recording_level::SensorRecordingLevel;

verus! {

/// `indexmap::IndexMap`, taken as it is: nothing of what is inside a map is
/// known here but through `tag_entries`.
#[verifier::external_type_specification]
#[verifier::external_body]
#[verifier::reject_recursive_types(K)]
#[verifier::reject_recursive_types(V)]
#[verifier::reject_recursive_types(S)]
pub struct ExIndexMap<K, V, S>(indexmap::IndexMap<K, V, S>);

/// The entries of a tag map, in the order of insertion.
pub uninterp spec fn tag_entries(tags: indexmap::IndexMap<String, String>) -> Seq<
    (Seq<char>, Seq<char>),
>;

/// `IndexMap::clone`, which the derived `Clone` of a configuration calls.
/// Nothing is claimed of the copy.
pub assume_specification<K, V, S>[ <indexmap::IndexMap<K, V, S> as std::clone::Clone>::clone ](
    _0: &indexmap::IndexMap<K, V, S>,
) -> indexmap::IndexMap<K, V, S> where K: std::clone::Clone, V: std::clone::Clone, S: std::clone::Clone
;

/// `IndexMap::new`: a map without entries.
#[verifier::external_body]
fn no_tags() -> (tags: indexmap::IndexMap<String, String>)
    ensures
        tag_entries(tags) == Seq::<(Seq<char>, Seq<char>)>::empty(),
{
    indexmap::IndexMap::new()
}

#[derive(Debug, Clone)]
pub struct MetricConfig {
    pub quota: Option<Quota>,
    /// How many samples a windowed statistic keeps; at least 1.
    pub samples: u32,
    /// After how many events a sample is complete.
    pub event_window: u64,
    /// After how many milliseconds a sample is complete.
    pub time_window_ms: u128,
    pub tags: indexmap::IndexMap<String, String>,
    pub record_level: SensorRecordingLevel,
}

impl Default for MetricConfig {
    /// Two samples of thirty seconds each, no limit on events, no quota, no
    /// tags, recorded at the coarsest level.
    fn default() -> (config: Self)
        ensures
            config.quota is None,
            config.samples == 2,
            config.event_window == u64::MAX,
            config.time_window_ms == 30_000,
            tag_entries(config.tags) == Seq::<(Seq<char>, Seq<char>)>::empty(),
            config.record_level == SensorRecordingLevel::Info,
    {
        MetricConfig {
            quota: None,
            samples: 2,
            event_window: u64::MAX,
            time_window_ms: 30_000,
            tags: no_tags(),
            record_level: SensorRecordingLevel::Info,
        }
    }
}

} // verus!
