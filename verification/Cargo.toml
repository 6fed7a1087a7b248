[package]
name = "sched_core"
version = "0.1.0"
edition = "2021"
publish = false

[dependencies]
rust-crypto = "=0.2.36"
serde = { version = "=1.0.229", features = ["derive"] }
serde_json = "=1.0.154"
chrono = { version = "=0.4.45", features = ["serde"] }
actix-web = "=4.18.1"
diesel = { version = "=2.3.14", features = ["postgres", "r2d2", "chrono"] }
dotenv = "=0.15.0"
getopts = "=0.2.24"
env_logger = "=0.11.11"
jsonwebtoken = { version = "=11.1.0", features = ["rust_crypto"] }
uuid = { version = "=1.29.0", features = ["v4"] }
