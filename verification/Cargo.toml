[package]
name = "portable_packer"
version = "0.1.0"
edition = "2021"
publish = false

[dependencies]
thiserror = "*"
tokio = { version = "1", features = ["fs", "io-util", "rt", "rt-multi-thread", "macros"] }
