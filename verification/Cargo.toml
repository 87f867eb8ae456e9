[package]
name = "aionui"
version = "0.1.0"
edition = "2021"
publish = false

[dependencies]
sha2 = "0.10"
hex = "0.4"
base64 = "0.22"
getrandom = "0.2"
ed25519-dalek = "2"
aes-gcm = "0.10"
serde = { version = "1", features = ["derive"] }
serde_json = "1"
uuid = { version = "1", features = ["v7"] }
thiserror = "2"
anyhow = "1"
async-trait = "0.1"
