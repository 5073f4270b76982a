[package]
name = "niro"
version = "0.1.0"
edition = "2021"
publish = false

[dependencies]
base64 = "=0.22.1"
chrono = "=0.4.45"
form_urlencoded = "=1.2.2"
futures-util = "0.3"
keyring = "3"
lettre = { version = "0.11", default-features = false, features = ["builder", "smtp-transport", "tokio1", "tokio1-rustls-tls"] }
once_cell = "=1.21.4"
parking_lot = "=0.12.5"
regex = "=1.13.1"
reqwest = { version = "0.12", default-features = false, features = ["json", "multipart", "rustls-tls"] }
serde = { version = "=1.0.229", features = ["derive"] }
serde_json = "=1.0.154"
tokio = { version = "1", features = ["macros", "process", "rt-multi-thread", "sync", "time"] }
tokio-tungstenite = "*"
uuid = { version = "=1.29.0", features = ["v4"] }
