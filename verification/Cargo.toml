[package]
name = "discussion_notify"
version = "0.1.0"
edition = "2021"
publish = false

[dependencies]
dotenv = "0.15"
flowsnet-platform-sdk = "*"
github-flows = "*"
log = "0.4"
serde_json = "1"
slack-flows = "*"
tokio = { version = "1", features = ["macros", "rt"] }
