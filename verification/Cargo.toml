[package]
name = "decktricks"
version = "0.1.0"
edition = "2021"
publish = false

[dependencies]
clap = { version = "=4.6.7", features = ["derive"] }
serde = { version = "=1.0.229", features = ["derive"] }
serde_json = "=1.0.154"
serde_with = "=3.24.0"
urlencoding = "=2.1.3"
twox-hash = "=1.6.3"
steam_shortcuts_util = "=1.1.9"
ureq = "=2.12.1"
which = "=8.0.6"
