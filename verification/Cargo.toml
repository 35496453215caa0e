[package]
name = "multi_version"
version = "0.1.0"
edition = "2021"
publish = false

[dependencies]
semver = "1"
syn = "1"
quote = "1"
proc-macro2 = "1"
