[package]
name = "dorea"
version = "0.1.0"
edition = "2021"
publish = false

[dependencies]
doson = "*"
serde_json = "1"
mlua = { version = "0.7", features = ["lua54", "vendored", "async", "serialize", "send"] }
tokio = { version = "1", features = ["full"] }
axum = "0.2"
hyper = { version = "0.14", features = ["full"] }
tower = { version = "0.4", features = ["timeout"] }
