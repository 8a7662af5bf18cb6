[package]
name = "murmel"
version = "0.1.0"
edition = "2021"
publish = false

[dependencies]
bitcoin = "0.29"
rand = "0.7"
futures = { version = "0.3", features = ["thread-pool"] }
futures-timer = "3"
