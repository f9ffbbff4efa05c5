[package]
name = "opensync"
version = "0.1.0"
edition = "2021"
publish = false

[dependencies]
blake3 = "=1.8.7"
url = "=2.5.8"
chrono = { version = "=0.4.45", features = ["serde"] }
serde = { version = "=1.0.229", features = ["derive"] }
serde_json = { version = "=1.0.154", features = ["preserve_order"] }
rusqlite = { version = "=0.32.1", features = ["bundled"] }
anyhow = "=1.0.104"
clap = { version = "=4.6.7", features = ["derive"] }
directories = "=5.0.1"
reqwest = { version = "=0.12.28", default-features = false, features = ["blocking", "json", "rustls-tls"] }
tokio = { version = "=1.54.1", features = ["rt-multi-thread", "macros", "time", "sync", "fs", "io-util", "net"] }
jsonwebtoken = "=9.3.1"
whoami = "=1.6.1"
arboard = { version = "=3.7.0", default-features = false }
tar = "=0.4.46"
axum = "=0.8.9"
clipboard-watcher = "=0.2.1"
rust_socketio = { version = "=0.6.0", features = ["async"] }
futures-util = "=0.3.34"
