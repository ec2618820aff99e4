[package]
name = "spotify_lyrics"
version = "0.1.0"
edition = "2021"
publish = false

[dependencies]
anyhow = "1"
dirs = "5"
gdk4-x11 = "0.9"
gtk4 = "0.9"
hmac = "0.12"
regex = "1"
reqwest = { version = "0.12", features = ["blocking", "cookies", "json"] }
rusqlite = { version = "0.32", features = ["bundled"] }
serde = { version = "1", features = ["derive"] }
serde_json = "1"
sha1 = "0.10"
x11rb = "0.13"
