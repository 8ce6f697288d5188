[package]
name = "zksync_remix"
version = "0.1.0"
edition = "2021"
publish = false

[dependencies]
uuid = { version = "1", features = ["v4", "serde"] }
chrono = { version = "0.4", features = ["serde"] }
serde = { version = "1", features = ["derive"] }
serde_json = "1"
thiserror = "1"
anyhow = "1"
tokio = { version = "1", features = ["full"] }
tracing = "0.1"
tracing-subscriber = "0.3"
walkdir = "2"
futures = "0.3"
async-channel = "2"
aws-config = "1"
aws-sdk-dynamodb = "1"
aws-sdk-s3 = "1"
aws-sdk-sqs = "1"
aws-smithy-types = "1"
