[package]
name = "oidc_validator"
version = "0.1.0"
edition = "2021"
publish = false

[dependencies]
serde = { version = "=1.0.229", features = ["derive"] }
serde_json = "=1.0.151"
sha2 = { version = "=0.10.9", features = ["oid"] }
rsa = "=0.9.10"
alloy-primitives = "=1.7.3"
hex = "=0.4.3"

[dev-dependencies]
base64 = "=0.22.1"
rand = "=0.8.8"
alloy-sol-types = "=1.7.3"
