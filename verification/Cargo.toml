[package]
name = "rcon_cli"
version = "0.1.0"
edition = "2021"
publish = false

[dependencies]
atty = "*"
chrono = "*"
clap = { version = "*", features = ["derive"] }
regex = "*"
serde_json = "*"
thiserror = "*"
tokio = { version = "*", features = ["rt-multi-thread", "macros", "net", "time", "io-util"] }
tracing = "*"
tracing-subscriber = { version = "*", features = ["env-filter", "fmt"] }
