[package]
name = "zotty"
version = "0.1.0"
edition = "2021"
publish = false

[dependencies]
actix-cors = "0.6"
actix-files = "0.6"
actix-web = "4"
array_tool = "1"
cairo-rs = "0.9"
chrono = "0.4"
futures = "0.3"
lazy_static = "1"
once_cell = "1"
path-absolutize = "3"
r2d2 = "0.8"
r2d2_sqlite = "0.18"
rand = "0.8"
reqwest = { version = "0.11", features = ["json"] }
serde = { version = "1", features = ["derive"] }
serde_urlencoded = "0.7"
serenity = "0.10"
tokio = { version = "1", features = ["full"] }
toml = "0.5"
tracing = "0.1"
