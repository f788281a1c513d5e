//! A bound that a measured value is held against.

use vstd::prelude::*;
use crate::ieee::Double;

verus! {

/// An upper or a lower bound on a value.
#[derive(Clone, Copy, Debug)]
pub struct Quota {
    pub is_upper_bound: bool,
    pub bound: Double,
}

impl Quota {
    pub fn new(is_upper_bound: bool, bound: Double) -> (q: Quota)
        ensures
            q.is_upper_bound == is_upper_bound,
            q.bound == bound,
    {
        Quota { is_upper_bound, bound }
    }

    /// Whether `value` keeps within the bound.
    pub open spec fn accepts(self, value: Double) -> bool {
        if self.is_upper_bound {
            value.le(self.bound)
        } else {
            value.ge(self.bound)
        }
    }

    /// Whether `value` keeps within the bound: at most the bound for an upper
    /// bound, at least the bound for a lower one. A NaN on either side is
    /// never acceptable.
    pub fn is_acceptable(&self, value: Double) -> (r: bool)
        ensures
            r == self.accepts(value),
    {
        if self.is_upper_bound {
            value.le(self.bound)
        } else {
            value.ge(self.bound)
        }
    }
}

} // verus!
