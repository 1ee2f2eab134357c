[package]
name = "watermark_gateway"
version = "0.1.0"
edition = "2021"
publish = false

[dependencies]
base64 = "0.21"
clap = { version = "4", features = ["derive"] }
console = "0.15"
dialoguer = "0.11"
fastly = "*"
form_urlencoded = "1"
hex = "0.4"
hmac = "0.12"
jsonwebtoken = "9"
rand = "0.8"
reqwest = { version = "0.11", default-features = false, features = ["rustls-tls"] }
serde = { version = "1", features = ["derive"] }
serde_json = "1"
sha2 = "0.10"
tokio = { version = "1", features = ["macros", "rt-multi-thread"] }
toml = "0.8"
urlencoding = "2"
