[package]
name = "gitpush_bridge"
version = "0.1.0"
edition = "2021"
publish = false

[dependencies]
nix = { version = "0.29", features = ["signal"] }
tauri = { version = "2", default-features = false }
tokio = { version = "1", features = ["time"] }
