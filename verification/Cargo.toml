[package]
name = "arto"
version = "0.1.0"
edition = "2021"
publish = false

[dependencies]
base64 = "=0.22.1"
chrono = { version = "=0.4.45", features = ["serde"] }
clap = { version = "=4.6.7", features = ["derive"] }
dirs = "=6.0.0"
getrandom = "=0.4.3"
html-escape = "=0.2.15"
lol_html = "=2.9.0"
serde = { version = "=1.0.229", features = ["derive"] }
serde_json = "=1.0.154"
sha2 = "=0.10.9"
uuid = { version = "=1.29.0", features = ["v4", "serde"] }
