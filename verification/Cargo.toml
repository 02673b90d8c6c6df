[package]
name = "mark_flaky_tests_core"
version = "0.1.0"
edition = "2021"
publish = false

[dependencies]
proc-macro2 = "1"
proc-macro-crate = "*"
proc-macro-error = "1"
quote = "1"
syn = { version = "2", features = ["full"] }
