[package]
name = "cache_service"
version = "0.1.0"
edition = "2021"
publish = false

[dependencies]
chrono = "0.4"
chrono-tz = "*"
sea-orm = { version = "1", default-features = false, features = ["macros", "with-chrono", "with-json", "with-uuid"] }
serde = { version = "1", features = ["derive"] }
serde_json = "1"
strum = { version = "*", features = ["derive"] }
uuid = { version = "1", features = ["v4"] }
