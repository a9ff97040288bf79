[package]
name = "backend"
version = "0.1.0"
edition = "2021"
publish = false

[dependencies]
unicode-normalization = "=0.1.25"
serde = { version = "=1.0.229", features = ["derive"] }
serde_json = "=1.0.151"
uuid = { version = "=1.27.0", features = ["v4", "serde"] }
url = "=2.5.8"
tokio = { version = "=1.53.2", features = ["rt-multi-thread", "macros", "process", "fs", "io-util"] }
warp = { version = "=0.4.3", features = ["multipart", "server"] }
sqlx = { version = "=0.9.0", default-features = false, features = ["runtime-tokio", "postgres", "uuid", "time"] }
rusoto_core = { version = "=0.48.0", default-features = false, features = ["rustls"] }
rusoto_credential = "=0.48.0"
rusoto_s3 = { version = "=0.48.0", default-features = false, features = ["rustls"] }
tempfile = "=3.27.0"
bytes = "=1.12.1"
futures = "=0.3.34"
time = { version = "=0.3.55", features = ["serde"] }
