[package]
name = "widget_driver"
version = "0.1.0"
edition = "2021"
publish = false

[dependencies]
serde = { version = "1", features = ["derive"] }
serde_json = "1"
tokio = { version = "1", features = ["sync", "rt", "time", "macros"] }
tracing = "0.1"
async-trait = "0.1"
async-channel = "1"
url = "2"
urlencoding = "2"
language-tags = "0.3"
