[package]
name = "ecommerce-api-client"
version = "0.1.0"
edition = "2021"
publish = false

[dependencies]
base64 = "=0.22.1"
reqwest = { version = "=0.12.28", default-features = false, features = ["json", "rustls-tls"] }
serde_json = { version = "=1.0.154", features = ["raw_value"] }
thiserror = "=1.0.69"
url = "=2.5.8"
