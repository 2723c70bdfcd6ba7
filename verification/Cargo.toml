[package]
name = "deve_llama_gui"
version = "0.1.0"
edition = "2021"
publish = false

[dependencies]
rfd = "=0.14.1"
dirs = "=5.0.1"
serde = { version = "1", features = ["derive"] }
serde_json = "1"
