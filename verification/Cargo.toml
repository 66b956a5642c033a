[package]
name = "process_cache"
version = "0.1.0"
edition = "2021"
publish = false

[dependencies]
actix-files = "=0.6.10"
actix-web = "=4.18.1"
aws-config = "=1.12.0"
aws-sdk-s3 = "=1.152.0"
# aws-types is held at the version that aws-config and aws-sdk-s3 both build
# with; left to itself it resolves to a later one, against which aws-config
# does not compile.
aws-types = "=1.6.0"
chrono = "=0.4.45"
clap = { version = "=4.6.7", features = ["derive"] }
env_logger = "=0.11.11"
log = "=0.4.34"
once_cell = "=1.21.4"
serde = { version = "=1.0.229", features = ["derive"] }
serde_json = "=1.0.154"
serde_qs = "=0.13.0"
tokio = { version = "=1.54.1", features = ["full"] }
