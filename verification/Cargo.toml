[package]
name = "hxxc"
version = "0.1.0"
edition = "2021"
publish = false

[dependencies]
gmp-mpfr-sys = { version = "1", default-features = false, features = ["use-system-libs"] }
lexpr = "=0.2.7"
rug = { version = "=1.19.2", default-features = false, features = ["integer"] }
thiserror = "=1.0.69"
