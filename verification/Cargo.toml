[package]
name = "tfserver"
version = "0.3.0"
edition = "2021"
publish = false

[dependencies]
aes-gcm = "0.10"
hkdf = "0.12"
sha2 = "0.10"
spake2 = "0.4"
hdrhistogram = "7"
tokio = { version = "1", features = ["full"] }
tokio-util = { version = "0.7", features = ["codec"] }
bytes = "1"
futures-util = { version = "0.3", features = ["sink"] }
futures-io = "0.3"
rkyv = "0.8"
num_enum = "0.7"
async-trait = "0.1"
log = "0.4"
env_logger = "0.11"
pin-project = "1"
tokio-rustls = { version = "0.26", default-features = false, features = ["ring", "logging", "tls12"] }
tokio-tungstenite = "*"
async-tungstenite = { version = "*", features = ["tokio-runtime"] }
