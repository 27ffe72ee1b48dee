[package]
name = "routecord"
version = "0.1.0"
edition = "2021"
publish = false

[dependencies]
anyhow = "1"
dashmap = "6"
image = "0.25"
notify-rust = { version = "4", features = ["images"] }
reqwest = { version = "0.12", default-features = false, features = ["rustls-tls"] }
serde_json = "1"
serenity = "0.12"
sysinfo = "0.33"
tokio = { version = "1", features = ["macros", "rt", "time"] }
