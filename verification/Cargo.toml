[package]
name = "rosu-tracker"
version = "0.1.0"
edition = "2021"
publish = false

[dependencies]
bytes = "1"
clap = "4"
color-eyre = "0.6"
eyre = "0.6"
futures-lite = "2"
futures-util = { version = "0.3", features = ["sink"] }
http-body-util = "0.1"
hyper = { version = "1", features = ["server", "client", "http1"] }
hyper-util = { version = "0.1", features = ["tokio"] }
rosu-v2 = { version = "=0.11.0", features = ["serialize"] }
serde = { version = "1", features = ["derive"] }
serde_json = "=1.0.154"
tokio = { version = "1", features = ["full"] }
tokio-tungstenite = "=0.30.0"
tracing = "0.1"
tracing-subscriber = "0.3"
