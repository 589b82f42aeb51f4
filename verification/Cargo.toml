[package]
name = "rtp_pattern_server"
version = "0.1.0"
edition = "2021"
publish = false

[dependencies]
anyhow = "1"
derive_more = "0.99"
futures = "0.3"
gstreamer = "0.16"
gstreamer-app = "0.16"
gstreamer-video = "0.16"
