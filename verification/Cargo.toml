[package]
name = "zoom_oauth"
version = "0.1.0"
edition = "2021"
publish = false

[dependencies]
base64 = "=0.23.1"
url = "=2.5.8"
serde = { version = "*", features = ["derive"] }
axum = "*"
tokio = { version = "*", features = ["macros", "rt-multi-thread", "net"] }
reqwest = { version = "=0.13.5", default-features = false, features = ["json", "form"] }
dotenvy = "*"
anyhow = "*"
