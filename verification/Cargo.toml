[package]
name = "voidreg_api"
version = "0.1.0"
edition = "2021"
publish = false

[dependencies]
serde = { version = "=1.0.229", features = ["derive"] }
serde_json = "=1.0.154"
thiserror = "=2.0.21"
toml = "=1.2.1"
tokio = { version = "=1.54.1", features = ["rt-multi-thread", "macros", "signal", "sync", "fs"] }
actix-web = { version = "=4.18.1", default-features = false, features = ["macros"] }
actix-cors = "=0.7.2"
reqwest = { version = "=0.13.5", default-features = false, features = ["json"] }
dotenvy = "=0.15.7"
tracing = "=0.1.44"
rustls = { version = "=0.23.46", default-features = false, features = ["ring", "std"] }
toasty = { version = "=0.11.0", features = ["turso"] }
toasty-driver-turso = "=0.11.0"
uuid = "=1.29.1"
