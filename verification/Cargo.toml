[package]
name = "weather_station"
version = "0.1.0"
edition = "2021"
publish = false

[dependencies]
actix-rt = "*"
actix-web = "*"
chrono = "*"
env_logger = "*"
lazy_static = "*"
regex = "*"
reqwest = { version = "*", default-features = false, features = ["json"] }
scraper = "*"
serde = { version = "*", features = ["derive"] }
serde_json = "*"
tokio = { version = "*", features = ["macros", "rt-multi-thread"] }
warp = "*"
