[package]
name = "rust2prod_api"
version = "0.1.0"
edition = "2021"
publish = false

[dependencies]
uuid = { version = "*", features = ["v4"] }
chrono = "*"
serde = { version = "*", features = ["derive"] }
sqlx = { version = "*", default-features = false, features = ["runtime-tokio", "postgres", "chrono"] }
tokio = { version = "*", features = ["macros", "rt-multi-thread"] }
actix-web = { version = "*", default-features = false, features = ["macros"] }
actix-cors = "*"
tracing = "*"
tracing-actix-web = "*"
log = "*"
