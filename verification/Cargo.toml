[package]
name = "mcp_bridge"
version = "0.1.0"
edition = "2021"
publish = false

[dependencies]
jni = "=0.21.1"
serde = { version = "=1.0.229", features = ["derive"] }
serde_json = "=1.0.154"
tauri = { version = "=2.12.5", default-features = false, features = ["wry"] }

[dev-dependencies]
jni = { version = "=0.21.1", features = ["invocation"] }
