[package]
name = "tennis_league"
version = "0.1.0"
edition = "2021"
publish = false

[dependencies]
actix-cors = "*"
actix-web = "*"
bcrypt = "*"
chrono = "*"
dotenv = "*"
serde = { version = "*", features = ["derive"] }
serde_json = "*"
