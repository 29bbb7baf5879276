[package]
name = "cargo-post"
version = "0.1.0"
edition = "2021"
publish = false

[dependencies]
toml = "*"
cargo_metadata = "*"
home = "*"
rustc_version = "*"
