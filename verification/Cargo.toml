[package]
name = "fanfare"
version = "0.1.0"
edition = "2021"
publish = false

[dependencies]
serenity = { version = "0.11", default-features = false, features = ["cache", "client", "gateway", "model", "rustls_backend", "standard_framework", "voice"] }
songbird = { version = "0.3" }
tokio = { version = "1", features = ["macros", "rt-multi-thread", "signal", "sync", "time"] }
tracing-subscriber = { version = "0.3" }
