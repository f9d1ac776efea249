[package]
name = "fruityger"
version = "0.1.0"
edition = "2021"
publish = false

[dependencies]
base64 = "=0.23.1"
chrono = "=0.4.45"
ffmpeg-next = "=9.0.0"
futures = "=0.3.34"
hmac = "=0.13.0"
md-5 = "=0.11.0"
rand = "=0.10.3"
reqwest = { version = "=0.13.5", features = ["json", "query"] }
serde = { version = "=1.0.229", features = ["derive"] }
serde_json = "=1.0.151"
sha2 = "=0.11.0"
tokio = { version = "=1.53.2", features = ["fs", "io-util", "macros", "rt", "rt-multi-thread", "sync"] }
tokio-stream = "=0.1.19"
url = "=2.5.8"
