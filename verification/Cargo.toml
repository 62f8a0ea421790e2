[package]
name = "agama"
version = "0.1.0"
edition = "2021"
publish = false

[dependencies]
serde_json = "*"
jrsonnet-parser = "*"
nmstate = "*"
tokio = { version = "*", features = ["sync", "rt"] }
thiserror = "*"
tracing = "*"
zbus = "*"
