[package]
name = "crm"
version = "0.1.0"
edition = "2021"
publish = false

[dependencies]
regex = "1"
iced = { version = "0.13", default-features = false, features = ["tokio", "tiny-skia"] }
sqlx = { version = "0.8", default-features = false, features = ["postgres", "runtime-tokio", "macros"] }
tokio = { version = "1", features = ["sync", "rt-multi-thread", "macros"] }
dotenvy = "0.15"
