[package]
name = "user_colors"
version = "0.1.0"
edition = "2021"
publish = false

[dependencies]
rgb = { version = "0.8", features = ["serde"] }
serde = { version = "1", features = ["derive"] }
rocket = { version = "0.5", features = ["json"] }
sqlx = { version = "0.8", default-features = false, features = ["sqlite", "runtime-tokio"] }
dotenv_codegen = "0.15"
