[package]
name = "parqeye"
version = "0.1.0"
edition = "2021"
publish = false

[dependencies]
crossterm = "0.28"
polars = { version = "0.51", features = ["lazy", "parquet"] }
polars-sql = "0.51"
ratatui = "0.29"
