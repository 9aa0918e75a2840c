[package]
name = "immich_sync"
version = "0.1.0"
edition = "2021"
publish = false

[dependencies]
sha1 = "0.10"
hex = "0.4"
serde = { version = "1", features = ["derive"] }
serde_json = "1"
reqwest = { version = "0.12", default-features = false, features = ["blocking", "multipart", "json", "rustls-tls"] }
rusqlite = { version = "*", features = ["bundled"] }
keyring = { version = "3", features = ["linux-native", "windows-native", "apple-native"] }
dirs = "*"
chrono = "0.4"
walkdir = "2"
notify-debouncer-full = "*"
parking_lot = "0.12"
image = { version = "0.25", default-features = false, features = ["png"] }
