[package]
name = "novadream"
version = "0.1.1"
edition = "2021"
publish = false

[dependencies]
dirs = "5"
serde = { version = "1", features = ["derive"] }
serde_json = "1"
anyhow = "1"
libc = "0.2"
tar = "0.4"
reqwest = { version = "0.12", default-features = false, features = ["blocking", "json", "rustls-tls"] }
tokio = { version = "1", features = ["rt-multi-thread"] }
ksni = "0.3"
gtk4 = { version = "0.9", features = ["v4_12"] }
glib = "0.20"
