[package]
name = "reaction_cut"
version = "0.1.0"
edition = "2021"
publish = false

[dependencies]
brotli = "*"
flate2 = "1"
url = "2"
serde_json = "1"
serde = { version = "1", features = ["derive"] }
chrono = "0.4"
uuid = { version = "1", features = ["v4"] }
rusqlite = { version = "*", features = ["bundled"] }
reqwest = { version = "0.12", default-features = false, features = ["blocking", "json", "rustls-tls"] }
tokio = { version = "1", features = ["fs", "io-util", "net", "time", "rt", "macros"] }
tokio-tungstenite = "*"
futures-util = "0.3"
