[package]
name = "resimulate"
version = "0.1.0"
edition = "2021"
publish = false

[dependencies]
hashbrown = "*"
serde = { version = "*", features = ["derive"] }
serde_json = "*"
allocator-api2 = "=0.2.21"
