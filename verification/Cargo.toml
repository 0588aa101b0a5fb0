[package]
name = "student_manager"
version = "0.1.0"
edition = "2021"
publish = false

[dependencies]
actix-web = "4"
mongodb = "2"
futures = "0.3"
dotenv = "0.15"
serde = { version = "1", features = ["derive"] }
