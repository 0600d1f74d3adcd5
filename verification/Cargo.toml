[package]
name = "lib_utils"
version = "0.1.0"
edition = "2021"
publish = false

[dependencies]
anyhow = "1"
base64 = "0.22"
chrono = "0.4"
hex = "0.4"
image = { version = "0.25", default-features = false, features = ["jpeg", "png"] }
md-5 = "0.10"
rand = "0.8"
rusqlite = { version = "0.31", features = ["bundled"] }
serde = { version = "1", features = ["derive"] }
serde_json = "1"
symphonia = { version = "0.5", features = ["mp3"] }
webp = "0.3"
