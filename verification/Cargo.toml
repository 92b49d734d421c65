[package]
name = "spotterm"
version = "0.1.0"
edition = "2021"
publish = false

[dependencies]
anyhow = "1"
chrono = "0.4"
clap = { version = "4", features = ["derive"] }
directories = "*"
image = { version = "0.25", default-features = false, features = ["jpeg", "png"] }
ratatui = "0.30"
ratatui-image = { version = "=11.0.6", default-features = false, features = ["crossterm"] }
reqwest = { version = "0.12", default-features = false, features = ["rustls-tls"] }
rspotify = { version = "0.16.1", default-features = false, features = ["client-reqwest", "reqwest-rustls-tls"] }
serde_json = "1"
tokio = { version = "1", features = ["macros", "rt-multi-thread", "net", "time", "io-util"] }
unicode-width = "0.2"
