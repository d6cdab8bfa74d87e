[package]
name = "filedrop"
version = "0.1.0"
edition = "2021"
publish = false

[dependencies]
axum = { version = "*", features = ["multipart"] }
tokio = { version = "*", features = ["rt", "net", "macros"] }
tracing = "*"
tracing-subscriber = { version = "*", features = ["env-filter", "fmt"] }
