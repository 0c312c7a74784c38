[package]
name = "memristor"
version = "0.1.0"
edition = "2021"
publish = false

[dependencies]
rand = "0.8"
serde = { version = "1", features = ["derive"] }
thiserror = "1"
rayon = "1"
metal = "*"
