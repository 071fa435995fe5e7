[package]
name = "cesa_conn"
version = "0.1.0"
edition = "2021"
publish = false

[dependencies]
aes-gcm = "0.10"
argon2 = "0.5"
blake2 = "0.10"
hkdf = "0.12"
libcrux-ml-kem = "0.0.*"
rand = "0.10"
sha2 = "0.10"
snow = "0.10"
spake2 = "0.4"
subtle = "2"
tokio = { version = "1", features = ["full"] }
tokio-util = "0.7"
tracing = "0.1"
tracing-subscriber = { version = "0.3", features = ["env-filter"] }
x25519-dalek = { version = "2", features = ["static_secrets"] }
zeroize = "1"
