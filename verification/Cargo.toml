[package]
name = "nsm_cli"
version = "0.1.0"
edition = "2021"
publish = false

[dependencies]
base64-url = "*"
aws-nitro-enclaves-nsm-api = "*"
serde = { version = "*", features = ["derive"] }
serde-big-array = "*"
serde_bytes = "*"
serde_json = "*"
structopt = "*"
