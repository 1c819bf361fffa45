[package]
name = "account_core"
version = "0.1.0"
edition = "2021"
publish = false

[dependencies]
jsonwebtoken = { version = "=11.1.0", default-features = false, features = ["rust_crypto"] }
serde_json = "*"
bcrypt = "=0.19.3"
chrono = "=0.4.45"
serde = { version = "*", features = ["derive"] }
anyhow = "*"
dotenv = "*"
tide = "=0.16.0"
async-std = { version = "*", features = ["attributes"] }
async-lock = "*"
validator = { version = "*", features = ["derive"] }
sqlx = { version = "0.7", default-features = false, features = ["runtime-async-std", "postgres"] }
