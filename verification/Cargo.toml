[package]
name = "durable_sqlx"
version = "0.1.0"
edition = "2021"
publish = false

[dependencies]
ipnetwork = "*"
sqlx-core = { version = "*", features = ["json"] }
serde = { version = "1", features = ["derive"] }
serde_json = "1"
thiserror = "*"
chrono = "0.4"
uuid = "1"
wit-bindgen = "*"
futures-core = "0.3"
futures-util = "0.3"
log = "0.4"
url = "2"
