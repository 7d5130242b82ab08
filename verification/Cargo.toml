[package]
name = "sotto"
version = "0.1.0"
edition = "2021"
publish = false

[dependencies]
tokio = { version = "*", features = ["sync", "rt-multi-thread", "macros", "fs", "io-util"] }
serde_json = "*"
reqwest = { version = "*", default-features = false, features = ["rustls-tls", "stream"] }
futures = "*"
tempfile = "*"
dirs = "*"
hound = "*"
cpal = "*"
whisper-rs = "*"
num_cpus = "*"
