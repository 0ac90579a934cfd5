[package]
name = "agent-core"
version = "0.1.0"
edition = "2021"
publish = false

[dependencies]
anyhow = "1"
bollard = "0.17"
chrono = { version = "0.4", features = ["serde"] }
dirs = "5"
flate2 = "1"
hostname = "0.4"
jsonwebtoken = "9"
rusoto_core = "0.48"
rusoto_s3 = "0.48"
serde = { version = "1", features = ["derive"] }
serde_json = "1"
sha2 = "0.10"
ssh2 = "0.9"
sysinfo = "0.32"
thiserror = "2"
tokio = { version = "1", features = ["full"] }
toml = "0.8"
tracing = "0.1"
tracing-appender = "0.2"
uuid = { version = "1", features = ["v4", "serde"] }
which = "6"
zstd = "0.13"
