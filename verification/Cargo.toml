[package]
name = "random_scan"
version = "0.1.0"
edition = "2021"
publish = false

[dependencies]
rand = "=0.8.8"
rand_chacha = "=0.3.1"
fake = { version = "=2.10.0", features = ["time"] }
num-traits = "=0.2.19"
serde_json = "=1.0.154"
pgrx = { version = "=0.11.4", features = ["pg16"] }
