[package]
name = "goat_frame"
version = "0.1.0"
edition = "2021"
publish = false

[dependencies]
actix-web = "*"
actix-files = "*"
dotenv = "*"
env_logger = "*"
envy = "*"
log = "*"
serde = { version = "*", features = ["derive"] }
