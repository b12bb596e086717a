[package]
name = "bird"
version = "0.1.0"
edition = "2021"
publish = false

[dependencies]
url = "2"
sha2 = "0.10"
percent-encoding = "2"
owo-colors = "4"
dirs = "5"
chrono = "0.4"
base64 = "0.22"
rand = "0.8"
serde = { version = "1", features = ["derive"] }
serde_json = "1"
toml = "0.8"
clap = { version = "4", features = ["derive", "env"] }
clap_complete = "4"
rusqlite = { version = "*", features = ["bundled"] }
rusqlite_migration = "*"
tracing-subscriber = { version = "0.3", features = ["env-filter"] }
libc = "0.2"
