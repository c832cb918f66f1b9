[package]
name = "malaria_inference"
version = "0.1.0"
edition = "2021"
publish = false

[dependencies]
image = { version = "0.25", default-features = false, features = ["png", "jpeg", "bmp", "tiff", "gif"] }
burn = { version = "0.18", default-features = false, features = ["std"] }
burn-ndarray = "0.18"
axum = { version = "0.8", default-features = false, features = ["http1", "tokio", "multipart"] }
tokio = { version = "1", features = ["rt-multi-thread", "macros", "net"] }
tower-http = { version = "0.6", features = ["cors"] }
anyhow = "1"

[dev-dependencies]
serde_json = "1"
