[package]
name = "holiday_event_api"
version = "1.2.0"
edition = "2021"
publish = false

[dependencies]
reqwest = { version = "=0.11.27", features = ["json"] }
rustc_version_runtime = "=0.3.0"
serde_json = "=1.0.154"
