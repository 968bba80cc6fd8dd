[package]
name = "bitlog"
version = "0.1.0"
edition = "2021"
publish = false

[dependencies]
base64 = "=0.13.1"
okapi = "0.7"
redis = "0.9"
rocket = { version = "0.5", features = ["json"] }
rocket_cors = "0.6"
rocket_okapi = "0.8"
schemars = "0.8"
serde = { version = "1", features = ["derive"] }

[dev-dependencies]
serde_json = "1"
