[package]
name = "imap_mailbox"
version = "0.1.0"
edition = "2021"
publish = false

[dependencies]
chrono = { version = "*", features = ["serde"] }
mail-parser = "*"
async-imap = "*"
async-native-tls = "*"
async-std = "*"
futures = "*"
secrecy = "*"
dotenv = "*"
base64 = "*"
serde = { version = "*", features = ["derive"] }
serde_json = "*"
