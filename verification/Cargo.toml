[package]
name = "dashboard_core"
version = "0.1.0"
edition = "2021"
publish = false

[dependencies]
actix-cors = "*"
actix-web = "*"
bb8 = "*"
bb8-tiberius = "*"
chrono = { version = "=0.4.45", features = ["serde"] }
dotenvy = "*"
env_logger = "*"
futures = "*"
serde = { version = "*", features = ["derive"] }
serde_json = { version = "=1.0.151", features = ["preserve_order"] }
tiberius = { version = "=0.12.3", default-features = false, features = ["tds73", "chrono"] }
tokio = { version = "*", features = ["sync"] }
utoipa = { version = "*", features = ["actix_extras"] }
validator = { version = "*", features = ["derive"] }
