[package]
name = "prepis"
version = "0.1.0"
edition = "2021"
publish = false

[dependencies]
atty = "=0.2.14"
aws-config = { version = "=1.12.0", features = ["behavior-version-latest"] }
aws-sdk-s3 = "=1.152.0"
aws-sdk-transcribe = "=1.122.0"
aws-types = "=1.6.0"
clap = { version = "=4.6.7", features = ["derive"] }
indicatif = "=0.17.11"
reqwest = "=0.12.28"
serde_json = "=1.0.154"
thiserror = "=1.0.69"
tokio = { version = "=1.54.1", features = ["full"] }
