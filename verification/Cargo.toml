[package]
name = "actix-web-request-uuid"
version = "0.1.0"
edition = "2021"
publish = false

[dependencies]
actix-web = { version = "4", default-features = false }
uuid = { version = "1", features = ["v4"] }
