[package]
name = "aws-secretsmanager-cache"
version = "0.3.0"
edition = "2021"
publish = false

[dependencies]
lru = "*"
aws-sdk-secretsmanager = { version = "*", default-features = false }
aws-sdk-config = { version = "*", default-features = false }
