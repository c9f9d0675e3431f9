[package]
name = "dnd_schedule"
version = "0.1.0"
edition = "2021"
publish = false

[dependencies]
icalendar = { version = "=0.17.14", features = ["chrono-tz"] }
rrule = "=0.14.0"
chrono = "=0.4.45"
chrono-tz = "=0.10.4"
serde = { version = "*", features = ["derive"] }
serde_json = "*"
dotenv = "*"
anyhow = "*"
tokio = { version = "*", features = ["macros", "rt-multi-thread"] }
reqwest = { version = "*", default-features = false, features = ["multipart", "rustls-tls"] }
