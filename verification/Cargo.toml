[package]
name = "authcore"
version = "0.1.0"
edition = "2021"
publish = false

[dependencies]
bcrypt = "=0.19.3"
jsonwebtoken = { version = "=11.1.0", features = ["rust_crypto"] }
serde_json = "=1.0.151"
chrono = "=0.4.45"
uuid = { version = "=1.27.0", features = ["v4"] }
rand = "=0.8.8"
serde = { version = "1", features = ["derive"] }
actix-web = "4"
actix-cors = "*"
env_logger = "*"
dotenv = "*"
