[package]
name = "track_overlay"
version = "0.1.0"
edition = "2021"
publish = false

[dependencies]
chrono = "0.4"
chrono-tz = "0.8"
gpx = "0.10"
geo-types = "0.7"
time = "0.3"
xml-rs = "0.8"
uuid = { version = "1", features = ["v4"] }
serde = { version = "1", features = ["derive"] }
image = { version = "0.24", default-features = false, features = ["png"] }
imageproc = { version = "0.23", default-features = false }
rusttype = "0.9"
ffprobe = "*"
fitparser = "*"
reqwest = { version = "0.11", default-features = false, features = ["json"] }
axum = { version = "0.7", features = ["multipart"] }
tokio = { version = "1", features = ["full"] }
tower-http = { version = "0.5", features = ["fs"] }
tracing = "0.1"
tracing-subscriber = { version = "0.3", features = ["env-filter"] }
dotenv = "0.15"
lazy_static = "1"
