[package]
name = "forest_core"
version = "0.1.0"
edition = "2021"
publish = false

[dependencies]
anyhow = "=1.0.104"
base64 = "=0.21.7"
blake2b_simd = "=1.0.5"
byteorder = "=1.5.0"
chrono = { version = "0.4", default-features = false, features = ["std"] }
cid = "=0.11.3"
directories = "*"
serde = { version = "=1.0.229", features = ["derive"] }
serde_with = { version = "*", features = ["chrono_0_4"] }
