[package]
name = "solistener"
version = "0.1.0"
edition = "2021"
publish = false

[dependencies]
base64 = "*"
num_cpus = "*"
chrono = { version = "*", default-features = false, features = ["clock", "serde"] }
serde = { version = "*", features = ["derive"] }
tokio = { version = "*", default-features = false, features = ["rt-multi-thread", "time"] }
clap = { version = "*", default-features = false, features = ["std", "help"] }
gcp-bigquery-client = "*"
