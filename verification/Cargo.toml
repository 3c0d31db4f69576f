[package]
name = "whether"
version = "0.1.0"
edition = "2021"
publish = false

[dependencies]
weathervane = "*"
chrono = "0.4"
serde = { version = "1", features = ["derive"] }
tokio = { version = "1", features = ["macros", "rt"] }
reqwest = { version = "0.12", default-features = false, features = ["json", "rustls-tls"] }
