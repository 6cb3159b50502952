[package]
name = "agartex_service"
version = "0.1.0"
edition = "2021"
publish = false

[dependencies]
anyhow = "1"
axum = "0.6"
axum-extra = { version = "0.7", features = ["cookie"] }
bcrypt = "0.14"
chrono = "0.4"
cookie = "0.17"
futures = "0.3"
http = "0.2"
hyper = "0.14"
lazy_static = "1"
rand = "0.8"
regex = "1"
serde = { version = "1", features = ["derive"] }
sqlx = { version = "0.6", default-features = false, features = ["runtime-tokio-rustls", "postgres", "chrono", "migrate"] }
tokio = { version = "1", features = ["rt-multi-thread", "macros", "fs"] }
tokio-util = { version = "0.7", features = ["io"] }
tower = "0.4"
tower-http = { version = "0.4", features = ["cors"] }
tracing = "0.1"
tracing-subscriber = "0.3"
validator = { version = "0.16", features = ["derive"] }
