[package]
name = "dafer_utils"
version = "0.1.0"
edition = "2021"
publish = false

[dependencies]
anyhow = "1"
bincode = "=1.3.3"
csv = "=1.4.0"
polars = { version = "=0.55.2", default-features = false, features = ["lazy", "csv", "parquet", "strings", "regex", "temporal", "dtype-date", "dtype-datetime"] }
serde = { version = "1", features = ["derive"] }
serde_json = "1"
