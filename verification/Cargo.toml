[package]
name = "apps_service"
version = "0.1.0"
edition = "2021"
publish = false

[dependencies]
hex-slice = "0.1"
log = "0.4"
md-5 = "0.9"
serde = { version = "1", features = ["derive"] }
serde_json = "1"
thiserror = "1"
url = "2"
version-compare = "0.0"
