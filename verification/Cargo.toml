[package]
name = "azure_functions"
version = "0.1.0"
edition = "2021"
publish = false

[dependencies]
serde = "=1.0.229"
serde_json = "=1.0.151"
time = { version = "=0.3.55", features = ["parsing"] }
uuid = "=1.27.0"
url = "=2.5.8"
tokio = { version = "=1.53.2", features = ["full"] }
hyper = { version = "=1.12.0", features = ["server", "http1"] }
hyper-util = { version = "=0.1.21", features = ["tokio"] }
http-body-util = "=0.1.5"
tracing = "=0.1.44"
tracing-subscriber = "=0.3.23"
tracing-log = "=0.2.0"
