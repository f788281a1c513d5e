//! How the timestamp of a record was assigned.

use vstd::prelude::*;

verus! {

#[derive(Clone, Copy, Debug, PartialEq, Eq, Structural)]
pub enum TimestampType {
    NoTimestampType,
    CreateTime,
    LogAppendTime,
}

impl TimestampType {
    /// The name of the constant that stands for the value on the Java side.
    pub open spec fn java_name(self) -> Seq<char> {
        match self {
            TimestampType::NoTimestampType => "NO_TIMESTAMP_TYPE"@,
            TimestampType::CreateTime => "CREATE_TIME"@,
            TimestampType::LogAppendTime => "LOG_APPEND_TIME"@,
        }
    }

    /// The Java class whose constants stand for the values.
    pub fn java_class() -> (name: &'static str)
        ensures
            name@ == "org/apache/kafka/common/record/TimestampType"@,
    {
        "org/apache/kafka/common/record/TimestampType"
    }

    /// The name of the constant that stands for the value on the Java side.
    pub fn java_variant(&self) -> (name: &'static str)
        ensures
            name@ == self.java_name(),
    {
        match self {
            TimestampType::NoTimestampType => "NO_TIMESTAMP_TYPE",
            TimestampType::CreateTime => "CREATE_TIME",
            TimestampType::LogAppendTime => "LOG_APPEND_TIME",
        }
    }

    /// Every value, in the order of declaration.
    pub fn values() -> (all: Vec<TimestampType>)
        ensures
            all@ == seq![
                TimestampType::NoTimestampType,
                TimestampType::CreateTime,
                TimestampType::LogAppendTime,
            ],
    {
        vec![
            TimestampType::NoTimestampType,
            TimestampType::CreateTime,
            TimestampType::LogAppendTime,
        ]
    }
}

} // verus!
