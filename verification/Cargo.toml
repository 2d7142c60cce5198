[package]
name = "omnibor"
version = "0.1.0"
edition = "2021"
publish = false

[dependencies]
anyhow = "1"
async-walkdir = "1"
digest = "0.10"
futures-lite = "2"
generic-array = "0.14"
hex = "0.4"
hyperpolyglot = "0.1"
infer = "0.15"
serde_json = "1"
sha1 = "0.10"
sha1collisiondetection = "0.3"
sha2 = "0.10"
tokio = { version = "1", features = ["fs", "io-util", "rt", "sync"] }
tracing = "0.1"
url = "2"
