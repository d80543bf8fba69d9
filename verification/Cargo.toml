[package]
name = "nitor_vault"
version = "0.1.0"
edition = "2021"
publish = false

[dependencies]
aes-gcm = "*"
anyhow = "*"
aws-config = "*"
aws-sdk-cloudformation = "*"
aws-sdk-kms = "*"
aws-sdk-s3 = "*"
aws-sdk-sts = "*"
base64 = "*"
clap = { version = "*", features = ["derive", "env"] }
clap_complete = "*"
colored = "*"
dirs = "*"
rand = "*"
tokio = { version = "*", features = ["macros", "rt-multi-thread", "time"] }
