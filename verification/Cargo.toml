[package]
name = "release_script"
version = "0.1.0"
edition = "2021"
publish = false

[dependencies]
semver = "1"
cargo_metadata = "0.15"
clap = "3.2"
