[package]
name = "explorer"
version = "0.1.0"
edition = "2021"
publish = false

[dependencies]
chrono = "=0.4.45"
polars = { version = "=0.55.2", default-features = false, features = ["lazy", "dtype-date", "dtype-datetime", "dtype-time", "dtype-i8", "dtype-i16", "dtype-u8", "dtype-u16", "cross_join", "pivot"] }
polars-arrow = "=0.55.2"
rustler = "=0.39.0"
mimalloc = { version = "=0.1.52", default-features = false }
