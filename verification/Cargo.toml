[package]
name = "kafka_metrics"
version = "0.1.0"
edition = "2021"
publish = false

[dependencies]
bytes = "1"
indexmap = "=1.9.3"
jni = "=0.19.0"
