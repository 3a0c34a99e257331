[package]
name = "proton_tracer"
version = "0.1.0"
edition = "2021"
publish = false

[dependencies]
anyhow = "=1.0.104"
chrono = "=0.4.45"
env_logger = "=0.11.11"
glam = "0.29"
image = { version = "0.25", default-features = false, features = ["png"] }
log = "=0.4.35"
rand = "0.8"
rand_distr = "0.4"
serde = { version = "=1.0.229", features = ["derive"] }
serde_json = "=1.0.154"
sha2 = "=0.10.9"
toml = "=0.8.23"
