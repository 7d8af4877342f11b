[package]
name = "rpatchur"
version = "0.1.0"
edition = "2021"
publish = false

[dependencies]
anyhow = "1"
flume = "=0.10.14"
futures = "0.3"
log = "0.4"
open = "=1.7.1"
reqwest = { version = "=0.11.27", default-features = false, features = ["rustls-tls", "stream"] }
serde = { version = "1", features = ["derive"] }
serde_json = "=1.0.154"
serde_yaml = "=0.8.26"
sha2 = "=0.9.9"
simple_logger = "=1.16.0"
structopt = "=0.3.26"
tinyfiledialogs = "=3.9.1"
tokio = { version = "1", features = ["fs", "io-util", "rt", "time"] }
web-view = "=0.7.3"
winapi = { version = "=0.3.9", features = ["windef", "winuser"] }
