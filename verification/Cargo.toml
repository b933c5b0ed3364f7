[package]
name = "upload_ingest"
version = "0.1.0"
edition = "2021"
publish = false

[dependencies]
chrono = "0.4"
serde_json = "1"
serde = { version = "1", features = ["derive"] }
actix-web = "4"
actix-multipart = "0.7"

[dev-dependencies]
regex = "1"
