[package]
name = "adbuy_core"
version = "0.1.0"
edition = "2021"
publish = false

[dependencies]
uuid = "1"
url = "2"
serde = { version = "1", features = ["derive"] }
serde_json = "1"
reqwest = { version = "0.11", default-features = false, features = ["json", "rustls-tls"] }
tokio = { version = "1", features = ["rt", "macros"] }
actix-web = { version = "4", default-features = false, features = ["macros"] }
