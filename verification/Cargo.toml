[package]
name = "thirtyfour"
version = "0.1.0"
edition = "2021"
publish = false

[dependencies]
serde = { version = "=1.0.229", features = ["derive"] }
serde_json = { version = "=1.0.154", features = ["float_roundtrip"] }
base64 = "=0.22.1"
url = "=2.5.8"
indexmap = "=2.14.2"
http = "=1.5.0"
stringmatch = "=0.4.0"
reqwest = { version = "=0.12.28", default-features = false, features = ["json", "blocking"] }
tokio = { version = "=1.54.1", features = ["rt-multi-thread", "time", "fs", "io-util", "process", "sync"] }
thiserror = "=2.0.21"
proc-macro2 = "=1.0.107"
quote = "=1.0.47"
syn = { version = "=2.0.119", features = ["full", "extra-traits"] }
