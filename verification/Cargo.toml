[package]
name = "csd_jwt"
version = "0.1.0"
edition = "2021"
publish = false

[dependencies]
ark-bn254 = "=0.4.0"
ark-ff = "=0.4.2"
ark-serialize = "=0.4.2"
ark-std = "=0.4.0"
digest = "=0.10.7"
josekit = "=0.10.3"
multibase = "=0.9.3"
serde = { version = "=1.0.229", features = ["derive"] }
serde_json = { version = "=1.0.154", features = ["preserve_order"] }
sha2 = "=0.10.9"
vb_accumulator = "=0.29.0"
zkryptium = "=0.7.1"

[dev-dependencies]
rand = "=0.9.5"
