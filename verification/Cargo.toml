[package]
name = "turbodocx_sdk"
version = "0.1.0"
edition = "2021"
publish = false

[dependencies]
reqwest = { version = "*", default-features = false, features = ["json", "multipart"] }
serde = "*"
serde_json = "*"
tokio = { version = "*", default-features = false, features = ["rt"] }
once_cell = "*"
thiserror = "*"
