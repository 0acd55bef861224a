[package]
name = "eventhub_producer"
version = "0.1.0"
edition = "2021"
publish = false

[dependencies]
azure_core = { version = "*", default-features = false }
fe2o3-amqp = "*"
fe2o3-amqp-types = "*"
tokio = { version = "*", features = ["rt", "sync", "time", "macros"] }
async-lock = "*"
async-trait = "*"
oauth2 = "*"
tracing = "*"
