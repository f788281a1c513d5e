//! Windowed, decaying statistics over a stream of numeric observations:
//! averages, extremes, sums, counts, rates, histogram quantiles and
//! token-bucket budgets, each answering point-in-time queries in bounded
//! memory.
//!
//! Observations are IEEE 754 numbers held as bit patterns. Ordering, extremes
//! and the special values are decided here on the bits; rounding arithmetic is
//! done by an arithmetic unit that the caller hands to each operation, and
//! what an operation computes with it is stated for every mathematical model
//! of that unit.
//!
//! Beside the statistics stand the names and headers that a Java host keeps
//! with them, and the rules by which plain values cross to that host.

pub mod arith;
pub mod ieee;

pub mod metric_config;
pub mod metric_utils;
pub mod quota;
pub mod sensor;
pub mod sensor_recording_level;

pub mod cumulative_stat;
pub mod histogram;
pub mod rate;
pub mod replay;
pub mod sample;
pub mod sampled_stat;
pub mod token_bucket;
pub mod value;

pub mod java_stored_object;
pub mod java_value;
pub mod metric_name;
pub mod metric_name_template;
pub mod record_header;
pub mod record_headers;
pub mod timestamp_type;
