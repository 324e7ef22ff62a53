[package]
name = "chronosnap"
version = "0.1.0"
edition = "2021"
publish = false

[dependencies]
base64 = "*"
image = "*"
nokhwa = { version = "*", features = ["input-native"] }
printers = "*"
rfd = "*"
chrono = "*"
log = "*"
serde = { version = "*", features = ["derive"] }
