[package]
name = "frame_relay"
version = "0.1.0"
edition = "2021"
publish = false

[dependencies]
anyhow = "1"
dotenv = "0.15"
futures = "0.3"
glib = "0.20"
gstreamer = "0.23"
gstreamer-app = "0.23"
tokio = { version = "1", features = ["full"] }
warp = "0.3"
