[package]
name = "tinted_report"
version = "0.1.0"
edition = "2021"
publish = false

[dependencies]
backtrace = "0.3"
tracing-error = "0.2"
eyre = "0.6"
once_cell = "1"
