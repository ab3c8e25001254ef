[package]
name = "tracing_actix_web"
version = "0.1.0"
edition = "2021"
publish = false

[dependencies]
actix-web = { version = "4", default-features = false }
futures = "0.3"
tracing = "0.1"
tracing-futures = "0.2"
uuid = { version = "1", features = ["v4"] }
