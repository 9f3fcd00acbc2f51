[package]
name = "gateway"
version = "0.1.0"
edition = "2021"
publish = false

[dependencies]
regex = "=1.13.1"
rand = "=0.8.5"
url = "=2.5.8"
serde = { version = "1", features = ["derive"] }
serde_json = "1"
serde_yaml = "0.9"
actix-web = { version = "=4.15.0", features = ["openssl"] }
awc = "=3.8.2"
openssl = "0.10"
tonic = "=0.9.2"
prost = "=0.11.9"
log = "0.4"
env_logger = "0.10"
