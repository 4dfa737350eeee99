[package]
name = "upload_translator"
version = "0.1.0"
edition = "2021"
publish = false

[dependencies]
base64 = "*"
serde_json = "*"
reqwest = { version = "*", default-features = false, features = ["blocking", "multipart"] }
