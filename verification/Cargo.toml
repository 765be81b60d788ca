[package]
name = "person_registry"
version = "0.1.0"
edition = "2021"
publish = false

[dependencies]
actix-web = { version = "=4.18.1", default-features = false, features = ["macros"] }
chrono = { version = "=0.4.45", default-features = false, features = ["std"] }
deadpool-postgres = "=0.10.5"
deadpool-redis = "0.14"
deadqueue = "=0.2.5"
futures = "=0.3.34"
reqwest = { version = "=0.11.27", default-features = false }
serde = { version = "=1.0.229", features = ["derive"] }
serde_json = "=1.0.154"
sql-builder = "=3.1.1"
tokio = { version = "=1.54.1", features = ["rt-multi-thread", "macros", "time", "sync"] }
tokio-postgres = "=0.7.18"
uuid = { version = "=1.29.0", features = ["v4"] }
