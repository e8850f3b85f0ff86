[package]
name = "subscriptions"
version = "0.1.0"
edition = "2021"
publish = false

[dependencies]
once_cell = "1"
rand = "0.8"
serde = { version = "1", features = ["derive"] }
thiserror = "1"
jni = "0.21"
objc = "0.2"
core-foundation = "0.9"
tauri = { version = "2", default-features = false }
