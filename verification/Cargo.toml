[package]
name = "weight_init"
version = "0.1.0"
edition = "2021"
publish = false

[dependencies]
burn-tensor = "0.11"
libm = "=0.2.16"
serde = { version = "=1.0.229", features = ["derive"] }

[dev-dependencies]
burn-ndarray = "0.11"
