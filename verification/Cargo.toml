[package]
name = "dory_scalar"
version = "0.1.0"
edition = "2021"
publish = false

[dependencies]
ark-bn254 = "=0.5.0"
ark-ec = "=0.5.0"
ark-ff = "=0.5.0"
ark-serialize = { version = "=0.5.0", features = ["derive"] }
rand = "=0.8.8"
