[package]
name = "roam"
version = "0.1.0"
edition = "2021"
publish = false

[dependencies]
heck = "=0.5.0"
tokio = { version = "=1.54.1", features = ["sync", "rt", "macros", "time"] }
proc-macro2 = "=1.0.107"
codegen = "*"
