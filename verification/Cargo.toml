[package]
name = "media_importer"
version = "0.1.0"
edition = "2021"
publish = false

[dependencies]
apalis = { version = "=0.4.9", features = ["sqlite", "extensions"] }
async-graphql = { version = "=5.0.10", default-features = false, features = ["chrono"] }
chrono = { version = "=0.4.45", default-features = false, features = ["std", "clock", "serde"] }
itertools = "=0.11.0"
sea-orm = { version = "=0.11.3", default-features = false, features = ["macros", "with-chrono", "with-json"] }
serde = { version = "=1.0.229", features = ["derive"] }
serde_json = "=1.0.154"
tracing = "=0.1.44"
