[package]
name = "clip_upload"
version = "0.1.0"
edition = "2021"
publish = false

[dependencies]
clap = { version = "4", features = ["derive"] }
cookie = "0.18"
serde_json = "1"
ureq = "2"
ureq_multipart = "1"
