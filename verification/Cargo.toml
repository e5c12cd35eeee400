[package]
name = "field_math"
version = "0.1.0"
edition = "2021"
publish = false

[dependencies]
rand = "0.8"
iota-crypto = { version = "0.23", default-features = false, features = ["blake2b"] }
b2sum-rs = "*"
hex = "0.4"
sha2 = "0.10"

[dev-dependencies]
num-bigint = "0.4"
