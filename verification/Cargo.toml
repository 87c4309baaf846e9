[package]
name = "tina"
version = "0.1.0"
edition = "2021"
publish = false

[dependencies]
chrono = "=0.4.45"
md5 = "=0.8.1"
rand = "=0.8.8"
serde_json = "=1.0.154"
serde = { version = "=1.0.229", features = ["derive"] }
serde_yaml = "=0.9.34"
csv = "=1.4.0"
reqwest = { version = "=0.11.27", default-features = false, features = ["blocking", "json"] }
oauthcli = "=1.0.4"
url = "=1.7.2"
slog = "=2.8.2"
slog-scope = "=4.4.1"
slog-term = "=2.9.2"
