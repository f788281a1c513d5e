//! The name under which a metric is registered.

use vstd::prelude::*;

verus! {

#[derive(Debug, Clone)]
pub struct MetricName {
    pub name: String,
    pub group: String,
    pub description: String,
    pub tags: indexmap::IndexMap<String, String>,
}

impl MetricName {
    pub fn new(
        name: String,
        group: String,
        description: String,
        tags: indexmap::IndexMap<String, String>,
    ) -> (metric_name: MetricName)
        ensures
            metric_name.name == name,
            metric_name.group == group,
            metric_name.description == description,
            metric_name.tags == tags,
    {
        MetricName { name, group, description, tags }
    }
}

} // verus!
