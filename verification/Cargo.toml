[package]
name = "rithmic_rs"
version = "0.6.2"
edition = "2021"
publish = false

[dependencies]
prost = "0.13"
tokio = { version = "1", features = ["time", "sync", "rt", "macros", "net"] }
tokio-tungstenite = "0.26"
futures-util = "0.3"
dotenv = "0.15"
tracing = "0.1"
async-trait = "0.1"
