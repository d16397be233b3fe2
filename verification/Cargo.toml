[package]
name = "mail_relay"
version = "0.1.0"
edition = "2021"
publish = false

[dependencies]
lettre = { version = "0.11", features = ["tokio1", "tokio1-native-tls"] }
rocket = { version = "0.5", features = ["json"] }
