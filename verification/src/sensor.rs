//! Recording levels of a sensor.

use vstd::prelude::*;

verus! {

/// How much detail a sensor records, from the coarsest level to the finest.
#[derive(Clone, Copy, Debug, PartialEq, Eq, Structural)]
pub enum RecordingLevel {
    Info,
    Debug,
    Trace,
}

impl RecordingLevel {
    /// The position of the level, counted from the coarsest.
    pub open spec fn rank(self) -> int {
        match self {
            RecordingLevel::Info => 0,
            RecordingLevel::Debug => 1,
            RecordingLevel::Trace => 2,
        }
    }

    /// Whether a sensor of this level records when `recording_level` is
    /// configured: it does when its own level is no finer.
    pub fn should_record(&self, recording_level: RecordingLevel) -> (r: bool)
        ensures
            r == (self.rank() <= recording_level.rank()),
    {
        match recording_level {
            RecordingLevel::Info => matches!(self, RecordingLevel::Info),
            RecordingLevel::Debug => matches!(self, RecordingLevel::Info | RecordingLevel::Debug),
            RecordingLevel::Trace => true,
        }
    }
}

impl RecordingLevel {
    /// The name of the constant that stands for the value on the Java side.
    pub open spec fn java_name(self) -> Seq<char> {
        match self {
            RecordingLevel::Info => "INFO"@,
            RecordingLevel::Debug => "DEBUG"@,
            RecordingLevel::Trace => "TRACE"@,
        }
    }

    /// The Java class whose constants stand for the values.
    pub fn java_class() -> (name: &'static str)
        ensures
            name@ == "org/apache/kafka/common/metrics/Sensor$RecordingLevel"@,
    {
        "org/apache/kafka/common/metrics/Sensor$RecordingLevel"
    }

    /// The name of the constant that stands for the value on the Java side.
    pub fn java_variant(&self) -> (name: &'static str)
        ensures
            name@ == self.java_name(),
    {
        match self {
            RecordingLevel::Info => "INFO",
            RecordingLevel::Debug => "DEBUG",
            RecordingLevel::Trace => "TRACE",
        }
    }

    /// Every value, in the order of declaration.
    pub fn values() -> (all: Vec<RecordingLevel>)
        ensures
            all@ == seq![
                RecordingLevel::Info,
                RecordingLevel::Debug,
                RecordingLevel::Trace,
            ],
    {
        vec![
            RecordingLevel::Info,
            RecordingLevel::Debug,
            RecordingLevel::Trace,
        ]
    }
}

} // verus!
