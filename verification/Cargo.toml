[package]
name = "waybar-tapo"
version = "0.1.0"
edition = "2021"
publish = false

[dependencies]
base64 = "0.22"
fs2 = "0.4"
serde = { version = "1", features = ["derive"] }
serde_json = "1"
tapo = { version = "*", features = ["debug"] }
tokio = { version = "1", features = ["macros", "rt", "time"] }
