[package]
name = "zero2prod"
version = "0.1.0"
edition = "2021"
publish = false

[dependencies]
unicode-segmentation = "=1.13.3"
validator = "=0.21.0"
form_urlencoded = "=1.2.2"
uuid = { version = "=1.29.0", features = ["v4"] }
chrono = { version = "=0.4.45", default-features = false, features = ["clock", "std"] }
actix-web = { version = "=4.18.1", default-features = false, features = ["macros"] }
actix-rt = "=2.15.0"
sqlx = { version = "=0.8.6", default-features = false, features = ["runtime-tokio", "postgres", "uuid", "chrono"] }
tracing = "=0.1.44"
tracing-subscriber = { version = "=0.3.23", features = ["registry", "env-filter"] }
tracing-bunyan-formatter = "=0.3.11"
tracing-log = "=0.2.0"
tracing-actix-web = "=0.7.25"
