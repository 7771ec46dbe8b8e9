[package]
name = "cdk_lnd"
version = "0.1.0"
edition = "2021"
publish = false

[dependencies]
anyhow = "1"
async-trait = "0.1"
fedimint-tonic-lnd = "0.2"
futures = "0.3"
lightning-invoice = "0.32"
tokio = { version = "1", features = ["macros", "rt", "sync"] }
tokio-util = "0.7"
tracing = "0.1"
