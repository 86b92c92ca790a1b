[package]
name = "transcribe_kit"
version = "0.1.0"
edition = "2021"
publish = false

[dependencies]
uuid = { version = "=1.29.0", features = ["v7"] }
keyring = { version = "=3.6.3", default-features = false }
serde = { version = "=1.0.229", features = ["derive"] }
serde_json = "=1.0.154"
directories = "=6.0.0"
hound = "=3.5.1"
global-hotkey = "=0.9.0"
mp3lame-encoder = "=0.2.5"
symphonia = { version = "=0.5.5", features = ["aac", "isomp4", "mp3"] }
ogg = "=0.9.2"
opus-decoder = "=0.1.1"
getrandom = "=0.4.3"
