[package]
name = "datatool"
version = "0.1.0"
edition = "2021"
publish = false

[dependencies]
aes-gcm = "=0.10.3"
base64 = "=0.22.1"
rand = "=0.8.8"
serde = { version = "1", features = ["derive"] }
serde_json = "1"
sqlx = { version = "=0.8.6", default-features = false, features = ["runtime-tokio", "postgres", "uuid", "json"] }
tokio = { version = "1", default-features = false, features = ["rt", "sync", "macros"] }
rusqlite = { version = "*", features = ["bundled"] }
uuid = { version = "1", features = ["v4"] }
chrono = "0.4"
once_cell = "1"
directories = "*"
thiserror = "1"
