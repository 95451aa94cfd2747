[package]
name = "codex_plus_core"
version = "0.1.0"
edition = "2021"
publish = false

[dependencies]
aes-gcm = "*"
anyhow = "*"
base64 = "*"
fs2 = "*"
serde = { version = "*", features = ["derive"] }
serde_json = "*"
sha2 = "*"
tokio = { version = "*", features = ["full"] }
toml = "*"
toml_edit = "*"
uuid = { version = "*", features = ["v4"] }

[dev-dependencies]
tempfile = "*"
