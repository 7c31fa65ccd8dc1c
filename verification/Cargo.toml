[package]
name = "contracttrait"
version = "0.1.0"
edition = "2021"
publish = false

[dependencies]
proc-macro2 = "1"
quote = "1"
syn = { version = "2", features = ["full"] }
deluxe = "0.5"
serde = { version = "1", features = ["derive"] }
