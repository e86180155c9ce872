[package]
name = "personalproject"
version = "0.1.0"
edition = "2021"
publish = false

[dependencies]
anyhow = "=1.0.104"
base64 = "=0.22.1"
bincode = "=1.3.3"
enigo = "=0.6.1"
fastembed = "*"
ndarray = "*"
open = "=5.4.5"
opencv = "*"
ort = "=2.0.0-rc.15"
reqwest = { version = "=0.12.28", default-features = false, features = ["json", "rustls-tls"] }
serde = { version = "1", features = ["derive"] }
serde_json = "=1.0.154"
tokio = { version = "=1.54.1", features = ["macros", "rt-multi-thread", "sync", "time"] }
urlencoding = "=2.1.3"
walkdir = "=2.5.0"
