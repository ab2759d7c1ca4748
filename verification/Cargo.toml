[package]
name = "playback"
version = "0.1.0"
edition = "2021"
publish = false

[dependencies]
anyhow = "=1.0.104"
chrono = "=0.4.45"
librespot-connect = { version = "=0.8.0", default-features = false, features = ["rustls-tls-webpki-roots"] }
log = "=0.4.35"
reqwest = { version = "=0.13.5", default-features = false, features = ["json"] }
rspotify = { version = "=0.16.1", default-features = false, features = ["client-reqwest"] }
serde_json = "=1.0.154"
tokio = { version = "=1.54.1", features = ["rt", "sync", "time", "macros"] }

[dev-dependencies]
vergen = "=9.0.6"
