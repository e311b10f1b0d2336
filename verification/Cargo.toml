[package]
name = "crossanchor"
version = "0.1.0"
edition = "2021"
publish = false

[dependencies]
cosmwasm-std = "=0.16.7"
cw-storage-plus = "=0.9.2"
cw20 = "=0.8.1"
terraswap = "=2.4.1"
anchor-token = "=0.3.0"
protobuf = "=2.28.0"
serde = { version = "=1.0.229", default-features = false, features = ["derive"] }
schemars = "=0.8.22"
