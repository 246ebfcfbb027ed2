[package]
name = "pam_rampdelay"
version = "0.1.0"
edition = "2021"
publish = false

[dependencies]
chrono = { version = "0.4", default-features = false, features = ["clock", "std"] }
rust-ini = "*"
pam-bindings = "*"
users = "*"

[dev-dependencies]
tempdir = "*"
