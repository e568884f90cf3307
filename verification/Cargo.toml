[package]
name = "edgehog-device-runtime"
version = "0.1.0"
edition = "2021"
publish = false

[dependencies]
async-trait = "0.1"
displaydoc = "0.2"
edgehog-device-forwarder-proto = "0.1"
futures = "0.3"
hex = "0.4"
http = "1"
reqwest = { version = "0.12", default-features = false }
thiserror = "1"
tokio = { version = "1", features = ["macros", "rt", "sync", "time"] }
tokio-tungstenite = "0.24"
tokio-util = "0.7"
tracing = "0.1"
url = "2"
uuid = "1"
