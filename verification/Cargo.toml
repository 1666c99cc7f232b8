[package]
name = "ccanvas_layout"
version = "0.1.0"
edition = "2021"
publish = false

[dependencies]
libccanvas = { version = "=0.2.0", features = ["common"] }
serde = { version = "=1.0.229", features = ["derive"] }
serde_json = "=1.0.151"
tokio = { version = "=1.53.2", features = ["full"] }
