[package]
name = "cosmic-radio-applet"
version = "0.1.0"
edition = "2021"
publish = false

[dependencies]
url = "2"
mpris-server = "*"
tokio = { version = "1", features = ["rt", "sync"] }
futures = "0.3"
tracing = "0.1"
serde = { version = "1", features = ["derive"] }
serde_json = "1"
thiserror = "1"
reqwest = { version = "0.12", default-features = false, features = ["json", "rustls-tls"] }
i18n-embed = { version = "*", features = ["desktop-requester"] }
