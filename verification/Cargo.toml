[package]
name = "delete_bucket"
version = "0.1.0"
edition = "2021"
publish = false

[dependencies]
anyhow = "=1.0.104"
aws-config = "=1.12.0"
aws-sdk-s3 = "=1.152.0"
aws-sdk-sts = "=1.119.0"
aws-smithy-runtime-api = "=1.19.1"
aws-types = "~1.6"
clap = { version = "=4.6.7", features = ["derive"] }
console = "=0.16.6"
dialoguer = "=0.12.0"
env_logger = "=0.11.11"
futures = "=0.3.34"
governor = "=0.10.4"
indicatif = "=0.18.6"
log = "=0.4.34"
tokio = { version = "=1.54.1", features = ["full"] }
tokio-stream = "=0.1.19"
