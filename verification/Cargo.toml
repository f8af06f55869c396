[package]
name = "sovd"
version = "0.1.0"
edition = "2021"
publish = false

[dependencies]
dashmap = "6"
tokio = { version = "1", features = ["sync", "rt", "macros", "signal", "time"] }
serde = { version = "1", features = ["derive"] }
serde_json = "1"
http = "1"
url = "2"
actix-web = { version = "4", default-features = false, features = ["macros", "openssl"] }
actix-files = "0.6"
awc = { version = "3", default-features = false, features = ["openssl"] }
clap = { version = "4", features = ["derive"] }
toml = "0.8"
tracing = "0.1"
tracing-subscriber = { version = "0.3", features = ["env-filter"] }
jsonwebtoken = "9"
openssl = "0.10"
schemars = "1"
futures-util = "0.3"
futures-core = "0.3"
async-trait = "0.1"
