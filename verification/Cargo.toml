[package]
name = "nucleos"
version = "0.1.0"
edition = "2021"
publish = false

[dependencies]
mlua = { version = "*", features = ["lua54", "vendored"] }
clap = { version = "*", features = ["derive"] }
color-eyre = "*"
serde = { version = "*", features = ["derive"] }
tracing = "*"
tracing-subscriber = { version = "*", features = ["env-filter", "fmt"] }
