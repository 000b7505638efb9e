[package]
name = "citywalk_meetings"
version = "0.1.0"
edition = "2021"
publish = false

[dependencies]
async-trait = "0.1"
log = "0.4"
reqwest = { version = "0.12", default-features = false, features = ["json", "multipart"] }
serde = { version = "1", features = ["derive"] }
serde_json = "1"
