[package]
name = "cooklang_core"
version = "0.1.0"
edition = "2021"
publish = false

[dependencies]
cooklang = "*"
serde = { version = "*", features = ["derive"] }
serde_json = "*"
rustler = "*"
