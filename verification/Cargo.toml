[package]
name = "opencap"
version = "0.1.0"
edition = "2021"
publish = false

[dependencies]
image = { version = "*", default-features = false, features = ["png"] }
base64 = "*"
screenshots = "=0.5.4"
arboard = { version = "*", default-features = false, features = ["image-data"] }
chrono = { version = "*", default-features = false, features = ["clock"] }
dirs = "*"
open = "*"
serde = { version = "*", features = ["derive"] }
serde_json = "*"
