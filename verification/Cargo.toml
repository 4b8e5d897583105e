[package]
name = "sysy_judge"
version = "0.1.0"
edition = "2021"
publish = false

[dependencies]
actix-multipart = { version = "*", default-features = false }
actix-web = { version = "*", default-features = false, features = ["macros"] }
actix-web-lab = "*"
clap = { version = "*", features = ["derive"] }
env_logger = "*"
futures = "*"
log = "*"
sanitize-filename = "*"
serde = { version = "*", features = ["derive"] }
serde_json = "*"
tokio = { version = "*", features = ["fs", "io-util", "macros", "process", "rt-multi-thread", "time"] }
tokio-stream = "*"
