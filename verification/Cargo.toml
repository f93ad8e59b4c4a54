[package]
name = "coppy"
version = "0.1.0"
edition = "2021"
publish = false

[dependencies]
arboard = "*"
base64 = "*"
enigo = "*"
image = { version = "*", default-features = false, features = ["png"] }
serde = { version = "*", features = ["derive"] }
serde_json = "*"
