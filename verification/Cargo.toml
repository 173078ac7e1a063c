[package]
name = "slide_extractor"
version = "0.1.0"
edition = "2021"
publish = false

[dependencies]
image = "0.25"
ahash = "0.8"
rand = "0.8"
uuid = { version = "1", features = ["v4"] }
serde = { version = "1", features = ["derive"] }
serde_json = "1"
url = "2"
clap = { version = "4", features = ["derive"] }
tracing = "0.1"
tracing-subscriber = "0.3"
