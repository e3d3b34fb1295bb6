[package]
name = "bucket_gate"
version = "0.1.0"
edition = "2021"
publish = false

[dependencies]
base64 = "=0.9.3"
rusoto_core = "0.42"
rusoto_s3 = "0.42"
http = "=0.1.21"
futures = "0.1"
envy = "=0.4.2"
serde = { version = "=1.0.229", features = ["derive"] }

[dev-dependencies]
url = "=2.5.8"
