[package]
name = "vc_notf"
version = "0.1.0"
edition = "2021"
publish = false

[dependencies]
dotenv = "0.15"
serenity = "0.11"
sqlx = { version = "0.6", default-features = false, features = ["postgres", "runtime-tokio-rustls"] }
tokio = { version = "1", features = ["macros", "rt-multi-thread"] }
