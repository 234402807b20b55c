[package]
name = "iceberg_datafusion"
version = "0.1.0"
edition = "2021"
publish = false

[dependencies]
async-trait = "=0.1.92"
datafusion = { version = "=54.1.0", default-features = false }
futures = "=0.3.34"
iceberg = { version = "=0.10.1", default-features = false }
