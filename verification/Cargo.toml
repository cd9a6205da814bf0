[package]
name = "close_my_lid"
version = "0.1.0"
edition = "2021"
publish = false

[dependencies]
auto-launch = "*"
chrono = "*"
serde = { version = "1", features = ["derive"] }
serde_json = "1"
thiserror = "*"
clap = { version = "4", features = ["derive"] }
ctrlc = "*"
tracing = "0.1"
tracing-subscriber = { version = "0.3", features = ["env-filter", "fmt"] }
