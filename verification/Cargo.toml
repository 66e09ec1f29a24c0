[package]
name = "challenges"
version = "0.1.0"
edition = "2021"
publish = false

[dependencies]
uuid = { version = "=1.29.0", features = ["v4"] }
chrono = { version = "=0.4.45", default-features = false, features = ["std", "clock"] }
tokio = { version = "=1.54.1", default-features = false, features = ["sync", "rt"] }
tracing = { version = "=0.1.44", default-features = false }
async-trait = "=0.1.92"
serde = { version = "=1.0.229", features = ["derive"] }
serde_json = "=1.0.154"
sandkasten-client = { version = "=0.2.2", features = ["reqwest", "poem-openapi"] }
fnct = { version = "=0.6.5", default-features = false, features = ["serde_json"] }
redis = { version = "=0.26.1", default-features = false, features = ["tokio-comp"] }
poem = { version = "=3.1.12", default-features = false }
poem-openapi = { version = "=5.1.16", default-features = false, features = ["uuid", "chrono"] }
poem-ext = { version = "=0.12.1", default-features = false, features = ["sea-orm"] }
sea-orm = { version = "=1.1.20", default-features = false, features = ["macros", "with-uuid", "with-chrono", "postgres-array"] }
sea-orm-migration = { version = "=1.1.20", default-features = false }
