[package]
name = "mplayer"
version = "0.1.0"
edition = "2021"
publish = false

[dependencies]
async-std = { version = "=1.13.2", features = ["attributes"] }
audiotags = "=0.5.0"
event-listener = "=5.4.2"
kira = { version = "=0.8.7", default-features = false, features = ["mp3", "ogg", "flac", "wav"] }
lofty = "=0.21.1"
serde = { version = "=1.0.229", features = ["derive"] }
zbus = "=4.4.0"
