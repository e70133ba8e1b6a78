[package]
name = "hermetic"
version = "0.1.0"
edition = "2021"
publish = false

[dependencies]
alloy-primitives = "1"
base64 = "0.22"
http = "1"
serde_json = "1"
serde = { version = "1", features = ["derive"] }
anyhow = "1"
thiserror = "2"
clap = { version = "4", features = ["derive", "env"] }
tokio = { version = "1", features = ["rt", "macros", "time", "io-util", "process", "net"] }
tracing = "0.1"
tracing-subscriber = { version = "0.3", features = ["env-filter"] }
bytes = "1"
http-body-util = "0.1"
hyper-util = { version = "0.1", features = ["client-legacy", "http1", "tokio"] }
tower = "0.5"
