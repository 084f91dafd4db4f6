[package]
name = "referee"
version = "0.1.0"
edition = "2021"
publish = false

[dependencies]
shakmaty = "*"
mailparse = "*"
base64 = "*"
urlencoding = "*"
uuid = { version = "*", features = ["v4"] }
chrono = "*"
rusqlite = { version = "*", features = ["bundled"] }
serde = { version = "*", features = ["derive"] }
serde_json = "*"
lettre = "*"
async-imap = "*"
async-native-tls = "*"
async-std = "*"
futures = "*"
