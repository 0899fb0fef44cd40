[package]
name = "rps_commit_reveal"
version = "0.1.0"
edition = "2021"
publish = false

[dependencies]
sha3 = "=0.10.9"
chrono = "=0.4.45"
