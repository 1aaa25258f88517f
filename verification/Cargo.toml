[package]
name = "lunc_incinerator"
version = "0.1.0"
edition = "2021"
publish = false

[dependencies]
bech32 = "=0.8.1"
cosmwasm-crypto = "=1.5.11"
cosmwasm-std = "=1.5.11"
cw-storage-plus = "1"
cw2 = "1"
hex = "=0.4.3"
ripemd = "=0.1.3"
schemars = "=0.8.22"
serde = { version = "=1.0.229", features = ["derive"] }
sha256 = { version = "=1.6.0", default-features = false }
thiserror = "=1.0.69"

[dev-dependencies]
k256 = "0.13"
