[package]
name = "rs_backend"
version = "0.1.0"
edition = "2021"
publish = false

[dependencies]
actix-web = { version = "4", default-features = false, features = ["macros"] }
dotenv = "0.15"
sea-query = { version = "0.32", default-features = false, features = ["backend-sqlite"] }
serde = { version = "1", features = ["derive"] }
serde_json = "1"
sqlx = { version = "0.8", default-features = false, features = ["sqlite", "runtime-tokio", "derive"] }

[dev-dependencies]
tokio = { version = "1", features = ["rt", "time"] }
