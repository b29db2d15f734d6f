[package]
name = "archinstaller"
version = "0.1.0"
edition = "2021"
publish = false

[dependencies]
bytesize = "=2.7.0"
block-utils = "=0.11.1"
chrono-tz = "=0.10.4"
console = "=0.16.6"
dialoguer = { version = "=0.12.0", features = ["fuzzy-select"] }
online = "=4.0.2"
