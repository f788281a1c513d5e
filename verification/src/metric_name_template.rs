//! The pattern of a metric name: the name with the tag keys that a metric of
//! that name carries.

use vstd::prelude::*;

verus! {

/// `indexmap::IndexSet`, taken as it is: a set is carried, and nothing of
/// what is inside it is known here.
#[verifier::external_type_specification]
#[verifier::external_body]
#[verifier::reject_recursive_types(T)]
#[verifier::reject_recursive_types(S)]
pub struct ExIndexSet<T, S>(indexmap::IndexSet<T, S>);

/// `IndexSet::clone`, which the derived `Clone` of a template calls. Nothing
/// is claimed of the copy.
pub assume_specification<T, S>[ <indexmap::IndexSet<T, S> as std::clone::Clone>::clone ](
    _0: &indexmap::IndexSet<T, S>,
) -> indexmap::IndexSet<T, S> where T: std::clone::Clone, S: std::clone::Clone
;

#[derive(Debug, Clone)]
pub struct MetricNameTemplate {
    pub name: String,
    pub group: String,
    pub description: String,
    pub tags: indexmap::IndexSet<String>,
}

impl MetricNameTemplate {
    pub fn new(
        name: String,
        group: String,
        description: String,
        tags: indexmap::IndexSet<String>,
    ) -> (template: MetricNameTemplate)
        ensures
            template.name == name,
            template.group == group,
            template.description == description,
            template.tags == tags,
    {
        MetricNameTemplate { name, group, description, tags }
    }
}

} // verus!
