[package]
name = "tgreddit"
version = "0.1.0"
edition = "2021"
rust-version = "1.95"
publish = false

[dependencies]
anyhow = "1"
chrono = "=0.4.45"
dptree = "0.3"
duct = "0.13"
env_logger = "0.10"
getopts = "0.2"
itertools = "=0.10.5"
lazy_static = "1"
log = "0.4"
lru = "=0.7.8"
regex = "=1.13.1"
reqwest = { version = "0.11", default-features = false, features = ["json", "rustls-tls"] }
rusqlite = { version = "=0.32.1", features = ["bundled", "chrono"] }
rusqlite_migration = "=1.3.1"
secrecy = { version = "0.8", features = ["serde"] }
serde = { version = "1", features = ["derive"] }
serde_json = "1"
signal-hook = "0.3"
strum = "0.24"
strum_macros = "0.24"
takecell = "=0.1.1"
teloxide = { version = "0.12", default-features = false, features = ["macros", "rustls"] }
tempdir = "0.3"
thiserror = "1"
tokio = { version = "1", features = ["macros", "rt-multi-thread", "sync", "time"] }
toml = "0.5"
url = "=2.5.8"
xdg = "2"
