[package]
name = "jm_downloader_rs"
version = "0.1.0"
edition = "2021"
publish = false

[dependencies]
aes = "0.8"
base64 = "0.22"
bytes = "1"
chrono = "0.4"
chrono-tz = "*"
image = "0.24"
log4rs = "1"
md5 = "0.7"
printpdf = { version = "0.7", features = ["embedded_images"] }
reqwest = { version = "0.12", default-features = false, features = ["cookies", "rustls-tls"] }
reqwest-middleware = "0.4"
reqwest-retry = "0.7"
rocket = { version = "0.5", features = ["json"] }
rocket_cors = "0.6"
rocket_okapi = { version = "0.9", features = ["swagger"] }
schemars = "0.8"
serde = { version = "1", features = ["derive"] }
serde_json = "1"
thiserror = "1"
tokio = { version = "1", features = ["full"] }
