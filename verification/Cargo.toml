[package]
name = "email_api"
version = "0.1.0"
edition = "2021"
publish = false

[dependencies]
uuid = { version = "*", features = ["v4"] }
chrono = "*"
validator = "*"
serde = { version = "*", features = ["derive"] }
actix-web = "*"
lettre = "*"
dotenv = "*"
