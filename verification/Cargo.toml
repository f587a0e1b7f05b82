[package]
name = "task_store"
version = "0.1.0"
edition = "2021"
publish = false

[dependencies]
actix-web = "4"
diesel = { version = "2", features = ["postgres", "r2d2"] }
dotenvy = "0.15"
env_logger = "*"
log = "0.4"
serde = { version = "1", features = ["derive"] }
