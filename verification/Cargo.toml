[package]
name = "pinocchio_kit"
version = "0.1.0"
edition = "2021"
publish = false

[dependencies]
heck = "=0.5.0"
syn = { version = "=2.0.119", features = ["full", "extra-traits"] }
quote = "=1.0.47"
proc-macro2 = "=1.0.107"
proc-macro-crate = "=3.5.0"
