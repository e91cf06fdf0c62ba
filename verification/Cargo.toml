[package]
name = "berri_recall"
version = "0.1.0"
edition = "2021"
publish = false

[dependencies]
serde = { version = "*", features = ["derive"] }
serde_json = "*"
sqlx = { version = "*", features = ["runtime-tokio", "sqlite"] }
tokio = { version = "*", features = ["macros", "rt-multi-thread"] }
chrono = "*"
dirs = "*"
regex = "*"
fuzzy-matcher = "*"
thiserror = "*"
