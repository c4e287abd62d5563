[package]
name = "maybe_async"
version = "0.1.0"
edition = "2021"
publish = false

[dependencies]
proc-macro2 = "1"
quote = "1"
syn = { version = "1", features = ["full"] }
tokio = { version = "1", features = ["rt-multi-thread"] }
