[package]
name = "opensnipping"
version = "0.1.0"
edition = "2021"
publish = false

[dependencies]
ashpd = { version = "0.11", default-features = false, features = ["tokio"] }
gstreamer = "0.23"
serde = { version = "1", features = ["derive"] }
tokio = { version = "1", features = ["sync"] }
tracing = "0.1"
uuid = { version = "1", features = ["v4"] }

[dev-dependencies]
image = { version = "0.25", default-features = false, features = ["png"] }
serde_json = "1"
