[package]
name = "smelt_remote"
version = "0.1.0"
edition = "2021"
publish = false

[dependencies]
scc = "=2.4.0"
tokio = { version = "=1.54.1", default-features = false, features = ["sync", "rt", "process", "fs", "io-util", "net", "macros"] }
rayon = "1"
