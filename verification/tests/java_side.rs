use bytes::Bytes;
use indexmap::{IndexMap, IndexSet};
use kafka_metrics::java_stored_object::JavaStoredObject;
use kafka_metrics::java_value::{
    bool_from_java, bool_to_java, low_bits_to_java, u128_from_java, u128_to_java, u32_from_java,
    u32_to_java, u64_from_java, u64_to_java,
};
use kafka_metrics::metric_name::MetricName;
use kafka_metrics::metric_name_template::MetricNameTemplate;
use kafka_metrics::metric_utils::TimeUnit;
use kafka_metrics::record_header::RecordHeader;
use kafka_metrics::record_headers::RecordHeaders;
use kafka_metrics::sampled_stat::StatType;
use kafka_metrics::sensor::RecordingLevel;
use kafka_metrics::sensor_recording_level::SensorRecordingLevel;
use kafka_metrics::timestamp_type::TimestampType;

fn header(key: &str, value: &'static [u8]) -> RecordHeader {
    RecordHeader::new(String::from(key), Bytes::from_static(value))
}

fn filled() -> RecordHeaders {
    let mut headers = RecordHeaders::default();
    headers.add(header("a", b"1"));
    headers.add(header("b", b"2"));
    headers.add(header("a", b"3"));
    headers.add(header("c", b"4"));
    headers.add(header("a", b"5"));
    headers
}

fn listed(headers: &[RecordHeader]) -> Vec<(String, Vec<u8>)> {
    headers.iter().map(|h| (h.key.clone(), h.value.to_vec())).collect()
}

fn pair(key: &str, value: &[u8]) -> (String, Vec<u8>) {
    (String::from(key), value.to_vec())
}

#[test]
fn u32_crosses_with_its_bit_pattern_but_for_the_extremes() {
    assert_eq!(u32_to_java(1), 1);
    assert_eq!(u32_to_java(2), 2);
    assert_eq!(u32_to_java(0x7fff_ffff), i32::MAX);
    assert_eq!(u32_to_java(0x8000_0000), i32::MIN);
    assert_eq!(u32_to_java(0x8000_0001), i32::MIN + 1);
    assert_eq!(u32_to_java(u32::MAX - 1), -2);
    assert_eq!(u32_to_java(u32::MAX), i32::MAX);
    assert_eq!(u32_to_java(0), i32::MIN);
    for v in [1u32, 77, 0x7fff_ffff, 0x8000_0000, 0xdead_beef, u32::MAX - 1] {
        assert_eq!(u32_to_java(v), v as i32);
    }
}

#[test]
fn u32_comes_back_with_its_bit_pattern() {
    for v in [0i32, 1, -1, 77, -77, i32::MAX, i32::MIN, i32::MIN + 1] {
        assert_eq!(u32_from_java(v), v as u32);
    }
    assert_eq!(u32_from_java(-1), u32::MAX);
    assert_eq!(u32_from_java(i32::MIN), 0x8000_0000);
}

#[test]
fn u64_crosses_with_its_bit_pattern_but_for_the_extremes() {
    assert_eq!(u64_to_java(u64::MAX), i64::MAX);
    assert_eq!(u64_to_java(0), i64::MIN);
    assert_eq!(u64_to_java(1), 1);
    assert_eq!(u64_to_java(u64::MAX - 1), -2);
    for v in [1u64, 30_000, 0x7fff_ffff_ffff_ffff, 0x8000_0000_0000_0000, u64::MAX - 1] {
        assert_eq!(u64_to_java(v), v as i64);
    }
    for v in [0i64, 1, -1, i64::MAX, i64::MIN, -30_000] {
        assert_eq!(u64_from_java(v), v as u64);
    }
}

#[test]
fn u128_crosses_with_its_low_bits_but_for_the_extremes() {
    assert_eq!(u128_to_java(u128::MAX), i64::MAX);
    assert_eq!(u128_to_java(0), i64::MIN);
    assert_eq!(u128_to_java(30_000), 30_000);
    assert_eq!(u128_to_java(1 << 64), 0);
    assert_eq!(u128_to_java((1 << 64) + 5), 5);
    assert_eq!(u128_to_java(u128::MAX - 1), -2);
    for v in [1u128, 1 << 63, (1 << 63) - 1, (1 << 100) + 12345, u128::MAX - 1] {
        assert_eq!(u128_to_java(v), v as i64);
        assert_eq!(low_bits_to_java(v), v as i64);
    }
    assert_eq!(low_bits_to_java(0), 0);
    assert_eq!(low_bits_to_java(u128::MAX), -1);
}

#[test]
fn u128_comes_back_widened_with_its_sign() {
    for v in [0i64, 1, 1_700_000_000_000, i64::MAX, -1, -2, i64::MIN] {
        assert_eq!(u128_from_java(v), v as u128);
    }
    assert_eq!(u128_from_java(-1), u128::MAX);
    assert_eq!(u128_from_java(i64::MIN), u128::MAX - (i64::MAX as u128));
}

#[test]
fn truth_values_cross_as_bytes() {
    assert_eq!(bool_to_java(true), 1);
    assert_eq!(bool_to_java(false), 0);
    assert!(!bool_from_java(0));
    assert!(bool_from_java(1));
    assert!(bool_from_java(255));
}

#[test]
fn enums_name_their_java_constants() {
    assert_eq!(TimeUnit::java_class(), "java/util/concurrent/TimeUnit");
    let units: Vec<&str> = TimeUnit::values().iter().map(|u| u.java_variant()).collect();
    assert_eq!(
        units,
        vec!["NANOSECONDS", "MICROSECONDS", "MILLISECONDS", "SECONDS", "MINUTES", "HOURS", "DAYS"]
    );
    assert_eq!(TimeUnit::values()[3], TimeUnit::Seconds);
    assert_eq!(RecordingLevel::java_class(), "org/apache/kafka/common/metrics/Sensor$RecordingLevel");
    let levels: Vec<&str> = RecordingLevel::values().iter().map(|l| l.java_variant()).collect();
    assert_eq!(levels, vec!["INFO", "DEBUG", "TRACE"]);
    assert_eq!(
        SensorRecordingLevel::java_class(),
        "org/apache/kafka/common/metrics/SensorRecordingLevel"
    );
    let levels: Vec<&str> =
        SensorRecordingLevel::values().iter().map(|l| l.java_variant()).collect();
    assert_eq!(levels, vec!["INFO", "DEBUG", "TRACE"]);
    assert_eq!(SensorRecordingLevel::values()[2], SensorRecordingLevel::Trace);
    assert_eq!(TimestampType::java_class(), "org/apache/kafka/common/record/TimestampType");
    let kinds: Vec<&str> = TimestampType::values().iter().map(|t| t.java_variant()).collect();
    assert_eq!(kinds, vec!["NO_TIMESTAMP_TYPE", "CREATE_TIME", "LOG_APPEND_TIME"]);
}

#[test]
fn headers_keep_the_order_of_addition() {
    let headers = filled();
    assert_eq!(headers.len(), 5);
    assert_eq!(
        listed(headers.to_array()),
        vec![pair("a", b"1"), pair("b", b"2"), pair("a", b"3"), pair("c", b"4"), pair("a", b"5")]
    );
    assert_eq!(RecordHeaders::default().len(), 0);
}

#[test]
fn remove_takes_out_every_header_of_the_key() {
    let mut headers = filled();
    headers.remove(&String::from("a"));
    assert_eq!(listed(headers.to_array()), vec![pair("b", b"2"), pair("c", b"4")]);
    headers.remove(&String::from("zz"));
    assert_eq!(listed(headers.to_array()), vec![pair("b", b"2"), pair("c", b"4")]);
    headers.remove(&String::from("c"));
    headers.remove(&String::from("b"));
    assert_eq!(headers.len(), 0);
    headers.remove(&String::from("b"));
    assert_eq!(headers.len(), 0);
    let mut middle = filled();
    middle.remove(&String::from("b"));
    assert_eq!(
        listed(middle.to_array()),
        vec![pair("a", b"1"), pair("a", b"3"), pair("c", b"4"), pair("a", b"5")]
    );
}

#[test]
fn last_header_is_the_latest_of_the_key() {
    let headers = filled();
    let last = headers.last_header(&String::from("a")).unwrap();
    assert_eq!(last.value.to_vec(), b"5".to_vec());
    let only = headers.last_header(&String::from("b")).unwrap();
    assert_eq!(only.value.to_vec(), b"2".to_vec());
    assert!(headers.last_header(&String::from("zz")).is_none());
    assert!(RecordHeaders::default().last_header(&String::from("a")).is_none());
}

#[test]
fn headers_of_a_key_come_in_their_order() {
    let headers = filled();
    let found: Vec<Vec<u8>> =
        headers.headers(&String::from("a")).iter().map(|h| h.value.to_vec()).collect();
    assert_eq!(found, vec![b"1".to_vec(), b"3".to_vec(), b"5".to_vec()]);
    assert_eq!(headers.headers(&String::from("c")).len(), 1);
    assert!(headers.headers(&String::from("zz")).is_empty());
}

#[test]
fn header_clone_holds_the_same_bytes() {
    let first = header("key", b"some bytes");
    let copy = first.clone();
    assert_eq!(copy.key, "key");
    assert_eq!(copy.value.to_vec(), b"some bytes".to_vec());
    let all = filled().clone();
    assert_eq!(all.len(), 5);
}

#[test]
fn metric_names_hold_their_parts() {
    let mut tags = IndexMap::new();
    tags.insert(String::from("client-id"), String::from("c1"));
    let name = MetricName::new(
        String::from("rate"),
        String::from("producer"),
        String::from("records per second"),
        tags,
    );
    assert_eq!(name.name, "rate");
    assert_eq!(name.group, "producer");
    assert_eq!(name.description, "records per second");
    assert_eq!(name.tags.get("client-id").map(String::as_str), Some("c1"));
    let mut keys = IndexSet::new();
    keys.insert(String::from("client-id"));
    keys.insert(String::from("topic"));
    let template = MetricNameTemplate::new(
        String::from("rate"),
        String::from("producer"),
        String::from("records per second"),
        keys,
    );
    assert_eq!(template.name, "rate");
    assert_eq!(template.group, "producer");
    assert_eq!(template.description, "records per second");
    let copy = template.clone();
    let keys: Vec<&str> = copy.tags.iter().map(String::as_str).collect();
    assert_eq!(keys, vec!["client-id", "topic"]);
}

#[test]
fn statistics_name_their_java_classes() {
    assert_eq!(StatType::Avg.java_class(), "org/apache/kafka/common/metrics/stats/Avg");
    assert_eq!(StatType::Min.java_class(), "org/apache/kafka/common/metrics/stats/Min");
    assert_eq!(StatType::Max.java_class(), "org/apache/kafka/common/metrics/stats/Max");
    assert_eq!(
        StatType::WindowedSum.java_class(),
        "org/apache/kafka/common/metrics/stats/WindowedSum"
    );
    assert_eq!(
        StatType::WindowedCount.java_class(),
        "org/apache/kafka/common/metrics/stats/WindowedCount"
    );
}

#[test]
fn stored_object_is_modified_in_place() {
    let mut stored = JavaStoredObject { obj: Some(Box::new(40u32)) };
    let before = stored.modify(|value| {
        let before = *value;
        *value += 2;
        before
    });
    assert_eq!(before, 40);
    assert_eq!(stored.obj, Some(Box::new(42)));
    let mut calls = 0;
    let seen = stored.modify(|value| {
        calls += 1;
        *value
    });
    assert_eq!(seen, 42);
    assert_eq!(calls, 1);
}
