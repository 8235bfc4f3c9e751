[package]
name = "serde_bigquery"
version = "0.1.0"
edition = "2021"
publish = false

[dependencies]
serde = "1"
serde_json = "1"
serde-transcode = "1"
