[package]
name = "image_optimizer"
version = "0.1.0"
edition = "2021"
publish = false

[dependencies]
image = "0.24"
actix-web = { version = "4", default-features = false, features = ["macros"] }
actix-multipart = "0.6"
futures = "0.3"
env_logger = "0.10"
serde_json = "1"
