//! Time units and the rescaling of a span of milliseconds into them.

use vstd::prelude::*;
use crate::arith::{from_int, is_unit, models, of_int, over, product, quotient, times, Op};
use crate::ieee::Double;

verus! {

#[derive(Clone, Copy, Debug, PartialEq, Eq, Structural)]
pub enum TimeUnit {
    Nanoseconds,
    Microseconds,
    Milliseconds,
    Seconds,
    Minutes,
    Hours,
    Days,
}

impl TimeUnit {
    /// How many of this unit make one millisecond; 1 for the units that are
    /// no shorter than a millisecond.
    pub open spec fn per_milli(self) -> int {
        match self {
            TimeUnit::Nanoseconds => 1_000_000,
            TimeUnit::Microseconds => 1_000,
            _ => 1,
        }
    }

    /// How many milliseconds make one of this unit; 1 for the units that are
    /// no longer than a millisecond.
    pub open spec fn millis(self) -> int {
        match self {
            TimeUnit::Seconds => 1_000,
            TimeUnit::Minutes => 60_000,
            TimeUnit::Hours => 3_600_000,
            TimeUnit::Days => 86_400_000,
            _ => 1,
        }
    }

    /// A span of `time_ms` milliseconds in this unit, as the unit `fpu`
    /// computes it: the span as a number, multiplied by `per_milli` for the
    /// shorter units, divided by `millis` for the longer ones, and left as it
    /// is for milliseconds.
    pub open spec fn converted(self, m: spec_fn(Op) -> u64, time_ms: u128) -> Double {
        let span = from_int(m, time_ms as int);
        if self.per_milli() != 1 {
            product(m, span, from_int(m, self.per_milli()))
        } else if self.millis() != 1 {
            quotient(m, span, from_int(m, self.millis()))
        } else {
            span
        }
    }

    /// Rescales a span of milliseconds into this unit.
    pub fn convert<F: Fn(Op) -> u64>(&self, time_ms: u128, fpu: &F) -> (r: Double)
        requires
            is_unit(*fpu),
        ensures
            forall|m: spec_fn(Op) -> u64| #[trigger]
                models(m, *fpu) ==> r == self.converted(m, time_ms),
    {
        let span = of_int(fpu, time_ms);
        match self {
            TimeUnit::Nanoseconds => times(fpu, span, of_int(fpu, 1_000_000)),
            TimeUnit::Microseconds => times(fpu, span, of_int(fpu, 1_000)),
            TimeUnit::Milliseconds => span,
            TimeUnit::Seconds => over(fpu, span, of_int(fpu, 1_000)),
            TimeUnit::Minutes => over(fpu, span, of_int(fpu, 60_000)),
            TimeUnit::Hours => over(fpu, span, of_int(fpu, 3_600_000)),
            TimeUnit::Days => over(fpu, span, of_int(fpu, 86_400_000)),
        }
    }
}

impl TimeUnit {
    /// The name of the constant that stands for the value on the Java side.
    pub open spec fn java_name(self) -> Seq<char> {
        match self {
            TimeUnit::Nanoseconds => "NANOSECONDS"@,
            TimeUnit::Microseconds => "MICROSECONDS"@,
            TimeUnit::Milliseconds => "MILLISECONDS"@,
            TimeUnit::Seconds => "SECONDS"@,
            TimeUnit::Minutes => "MINUTES"@,
            TimeUnit::Hours => "HOURS"@,
            TimeUnit::Days => "DAYS"@,
        }
    }

    /// The Java class whose constants stand for the values.
    pub fn java_class() -> (name: &'static str)
        ensures
            name@ == "java/util/concurrent/TimeUnit"@,
    {
        "java/util/concurrent/TimeUnit"
    }

    /// The name of the constant that stands for the value on the Java side.
    pub fn java_variant(&self) -> (name: &'static str)
        ensures
            name@ == self.java_name(),
    {
        match self {
            TimeUnit::Nanoseconds => "NANOSECONDS",
            TimeUnit::Microseconds => "MICROSECONDS",
            TimeUnit::Milliseconds => "MILLISECONDS",
            TimeUnit::Seconds => "SECONDS",
            TimeUnit::Minutes => "MINUTES",
            TimeUnit::Hours => "HOURS",
            TimeUnit::Days => "DAYS",
        }
    }

    /// Every value, in the order of declaration.
    pub fn values() -> (all: Vec<TimeUnit>)
        ensures
            all@ == seq![
                TimeUnit::Nanoseconds,
                TimeUnit::Microseconds,
                TimeUnit::Milliseconds,
                TimeUnit::Seconds,
                TimeUnit::Minutes,
                TimeUnit::Hours,
                TimeUnit::Days,
            ],
    {
        vec![
            TimeUnit::Nanoseconds,
            TimeUnit::Microseconds,
            TimeUnit::Milliseconds,
            TimeUnit::Seconds,
            TimeUnit::Minutes,
            TimeUnit::Hours,
            TimeUnit::Days,
        ]
    }
}

} // verus!
