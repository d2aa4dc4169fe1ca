[package]
name = "floci_ui"
version = "0.1.0"
edition = "2021"
publish = false

[dependencies]
serde = { version = "=1.0.229", features = ["derive"] }
serde_json = "=1.0.154"
url = "=2.5.8"
time = { version = "=0.3.55", features = ["formatting"] }
thiserror = "=2.0.21"
reqwest = { version = "=0.12.28", default-features = false, features = ["json"] }
dotenvy = "=0.15.7"
tokio = { version = "=1.54.1", features = ["rt-multi-thread", "macros"] }
aws-credential-types = "=1.3.1"
aws-sdk-dynamodb = { version = "=1.136.0", default-features = false, features = ["rt-tokio", "rustls"] }
aws-sdk-sqs = { version = "=1.119.0", default-features = false, features = ["rt-tokio", "rustls"] }
aws-sdk-sns = { version = "=1.121.0", default-features = false, features = ["rt-tokio", "rustls"] }
aws-sdk-kms = { version = "=1.129.0", default-features = false, features = ["rt-tokio", "rustls"] }
aws-sdk-secretsmanager = { version = "=1.125.0", default-features = false, features = ["rt-tokio", "rustls"] }
aws-sdk-sts = { version = "=1.124.0", default-features = false, features = ["rt-tokio", "rustls"] }
