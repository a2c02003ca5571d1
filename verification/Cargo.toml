[package]
name = "mixer_chat"
version = "0.1.0"
edition = "2021"
publish = false

[dependencies]
serde = { version = "*", features = ["derive"] }
serde_derive = "*"
serde_json = "*"
reqwest = { version = "*", default-features = false, features = ["blocking"] }
websocket = { version = "*", default-features = false, features = ["sync", "sync-ssl"] }
