[package]
name = "loggy"
version = "0.1.0"
edition = "2021"
publish = false

[dependencies]
aws-config = "1"
aws-credential-types = "1"
aws-sdk-cloudwatchlogs = "1"
dirs = "*"
tokio = { version = "1", features = ["macros", "rt-multi-thread", "time"] }
