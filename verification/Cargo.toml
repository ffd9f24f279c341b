[package]
name = "newsletter_intake"
version = "0.1.0"
edition = "2021"
publish = false

[dependencies]
unicode-segmentation = "=1.13.3"
uuid = { version = "=1.27.0", features = ["v4"] }
chrono = { version = "=0.4.45", default-features = false, features = ["clock"] }
serde = { version = "=1.0.229", features = ["derive"] }
actix-web = { version = "=4.15.0", default-features = false, features = ["macros"] }
sqlx = { version = "=0.9.0", default-features = false, features = ["runtime-tokio", "postgres", "uuid", "chrono"] }
reqwest = { version = "=0.13.5", default-features = false, features = ["form"] }
tracing = "=0.1.44"
