[package]
name = "crates-io-cn"
version = "0.1.0"
edition = "2021"
publish = false

[dependencies]
actix-web = { version = "4", default-features = false, features = ["macros"] }
async-channel = "1"
base16 = "0.2"
base64 = "0.13"
bytes = "1"
chrono = "0.4"
clap = { version = "2", default-features = false }
dotenv = "0.15"
elasticsearch = { version = "7.14.0-alpha.1", default-features = false, features = ["rustls-tls"] }
git2 = "0.13"
hmac = "0.10"
lazy_static = "1"
log = "0.4"
log4rs = "1"
md-5 = "0.9"
reqwest = { version = "0.11", default-features = false, features = ["rustls-tls", "stream"] }
rev_lines = "0.2"
serde = { version = "1", features = ["derive"] }
serde_json = "1"
sha2 = "0.9"
thiserror = "1"
tokio = { version = "1", features = ["macros", "rt", "rt-multi-thread", "sync", "time"] }
tokio-stream = { version = "0.1", features = ["sync"] }
url = "2"
urlencoding = "1"
walkdir = "2"
