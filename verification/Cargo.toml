[package]
name = "dashboard"
version = "0.1.0"
edition = "2021"
publish = false

[dependencies]
base64 = "0.22"
image = { version = "0.25", default-features = false, features = ["jpeg", "png"] }
rumqttc = { version = "0.25", default-features = false }
tokio = { version = "1", features = ["full"] }
polars = { version = "0.52", default-features = false, features = ["csv", "fmt"] }
serde = { version = "1", features = ["derive"] }
serde_json = "1"
