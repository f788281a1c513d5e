//! The recording level that a metric configuration carries.

use vstd::prelude::*;

verus! {

/// How much detail is recorded, from the coarsest level to the finest.
#[derive(Clone, Copy, Debug, PartialEq, Eq, Structural)]
pub enum SensorRecordingLevel {
    Info,
    Debug,
    Trace,
}

impl SensorRecordingLevel {
    /// The position of the level, counted from the coarsest.
    pub open spec fn rank(self) -> int {
        match self {
            SensorRecordingLevel::Info => 0,
            SensorRecordingLevel::Debug => 1,
            SensorRecordingLevel::Trace => 2,
        }
    }

    /// Whether this level records when `recording_level` is configured: it
    /// does when it is no finer than the configured one.
    pub fn should_record(&self, recording_level: SensorRecordingLevel) -> (r: bool)
        ensures
            r == (self.rank() <= recording_level.rank()),
    {
        match recording_level {
            SensorRecordingLevel::Info => matches!(self, SensorRecordingLevel::Info),
            SensorRecordingLevel::Debug => matches!(
                self,
                SensorRecordingLevel::Info | SensorRecordingLevel::Debug
            ),
            SensorRecordingLevel::Trace => true,
        }
    }
}

impl SensorRecordingLevel {
    /// The name of the constant that stands for the value on the Java side.
    pub open spec fn java_name(self) -> Seq<char> {
        match self {
            SensorRecordingLevel::Info => "INFO"@,
            SensorRecordingLevel::Debug => "DEBUG"@,
            SensorRecordingLevel::Trace => "TRACE"@,
        }
    }

    /// The Java class whose constants stand for the values.
    pub fn java_class() -> (name: &'static str)
        ensures
            name@ == "org/apache/kafka/common/metrics/SensorRecordingLevel"@,
    {
        "org/apache/kafka/common/metrics/SensorRecordingLevel"
    }

    /// The name of the constant that stands for the value on the Java side.
    pub fn java_variant(&self) -> (name: &'static str)
        ensures
            name@ == self.java_name(),
    {
        match self {
            SensorRecordingLevel::Info => "INFO",
            SensorRecordingLevel::Debug => "DEBUG",
            SensorRecordingLevel::Trace => "TRACE",
        }
    }

    /// Every value, in the order of declaration.
    pub fn values() -> (all: Vec<SensorRecordingLevel>)
        ensures
            all@ == seq![
                SensorRecordingLevel::Info,
                SensorRecordingLevel::Debug,
                SensorRecordingLevel::Trace,
            ],
    {
        vec![
            SensorRecordingLevel::Info,
            SensorRecordingLevel::Debug,
            SensorRecordingLevel::Trace,
        ]
    }
}

} // verus!
