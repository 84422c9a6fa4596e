[package]
name = "pones_6502"
version = "0.1.0"
edition = "2021"

[dependencies]
console = { version = "0.15", default-features = false }
thiserror = "1"
