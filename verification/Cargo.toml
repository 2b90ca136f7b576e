[package]
name = "crustrace"
version = "0.1.0"
edition = "2021"
publish = false

[dependencies]
proc-macro2 = { version = "=1.0.107", default-features = false }
tracing = "=0.1.44"
tracing-subscriber = "=0.3.23"
