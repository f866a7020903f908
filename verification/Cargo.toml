[package]
name = "judge_core"
version = "0.1.0"
edition = "2021"
publish = false

[dependencies]
anyhow = "*"
aws-config = "*"
aws-sdk-s3 = "*"
axum = "*"
base64 = "*"
bytes = "*"
lambda_http = "*"
nix = { version = "*", features = ["signal"] }
regex = "*"
serde = { version = "*", features = ["derive"] }
serde_json = "*"
tempfile = "*"
tokio = { version = "*", features = ["macros", "rt-multi-thread"] }
tracing = "*"
uuid = { version = "*", features = ["v4"] }
