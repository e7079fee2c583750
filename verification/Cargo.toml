[package]
name = "odbc_driver_rs"
version = "0.1.0"
edition = "2021"
publish = false

[dependencies]
odbc-sys = "*"
tracing = "*"
tracing-subscriber = { version = "*", features = ["env-filter", "fmt"] }
