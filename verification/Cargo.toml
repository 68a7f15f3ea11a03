[package]
name = "ds_odrl_adapters"
version = "0.1.0"
edition = "2021"
publish = false

[dependencies]
serde = { version = "1", features = ["derive"] }
serde_json = "1"
oxrdf = "*"
oxttl = "*"
wasmi = "*"
