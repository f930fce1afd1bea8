[package]
name = "vscu_pipeline"
version = "0.1.0"
edition = "2021"
publish = false

[dependencies]
aes-gcm = "0.10"
aes-gcm-siv = "0.11"
base64 = "0.22"
bcrypt = "0.15"
rand = "0.8"
serde = { version = "1", features = ["derive"] }
serde_json = "1"
tokio = { version = "1", features = ["macros", "rt-multi-thread", "time"] }
axum = "0.7"
reqwest = { version = "0.12", default-features = false, features = ["json"] }
