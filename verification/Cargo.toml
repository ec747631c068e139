[package]
name = "utf8_crosscheck"
version = "0.1.0"
edition = "2021"
publish = false

[dependencies]
afl = "*"
simdutf8 = { version = "0.1", features = ["std", "public_imp"] }
