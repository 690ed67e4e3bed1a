[package]
name = "jolie"
version = "0.1.0"
edition = "2021"
publish = false

[dependencies]
num-traits = "=0.2.19"
rand = { version = "=0.10.3", features = ["chacha"] }
rand_distr = "*"
serde = { version = "=1.0.229", features = ["derive"] }
serde_json = "=1.0.154"
statrs = { version = "=0.19.1", default-features = false }
