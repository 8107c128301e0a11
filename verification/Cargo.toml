[package]
name = "backend"
version = "0.1.0"
edition = "2021"
publish = false

[dependencies]
uuid = { version = "=1.29.0", features = ["v4", "serde"] }
rand = "=0.8.8"
regex = "=1.13.1"
serde = { version = "1", features = ["derive"] }
serde_json = "1"
bincode = "=1.3.3"
log = "0.4"
actix = "0.13"
actix-web = { version = "4", default-features = false, features = ["macros", "ws"] }
actix-web-actors = "4"
