[package]
name = "nedb_store"
version = "0.1.0"
edition = "2021"
publish = false

[dependencies]
chrono = { version = "0.4", default-features = false, features = ["std", "now"] }
rusqlite = { version = "0.41", features = ["bundled"] }
serde_json = "1"
tauri = { version = "2", default-features = false, features = ["wry"] }
uuid = { version = "1", features = ["v4"] }
