[package]
name = "taskrunner"
version = "0.1.0"
edition = "2021"
publish = false

[dependencies]
async-stream = "0.3"
base64 = "0.13"
chrono = "0.4"
futures = "0.3"
hyper = { version = "0.14", features = ["full"] }
juniper = "0.15"
juniper_graphql_ws = "0.3"
serde_json = "1"
sha1 = "0.10"
tokio = { version = "1", features = ["full"] }
tokio-stream = "0.1"
tokio-tungstenite = "0.15"
tracing = "0.1"
tracing-subscriber = { version = "0.3", features = ["env-filter"] }
url = "2"
