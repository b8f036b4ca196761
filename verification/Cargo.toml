[package]
name = "jade"
version = "0.1.0"
edition = "2021"
publish = false

[dependencies]
bcrypt = "*"
chrono = "0.4"
serde = { version = "1", features = ["derive"] }
tokio = { version = "1", features = ["macros", "rt-multi-thread"] }
actix-web = "4"
actix-cors = "0.7"
actix-multipart = "0.7"
lettre = "0.11"
sqlx = { version = "0.8", default-features = false, features = ["postgres", "runtime-tokio", "derive"] }
