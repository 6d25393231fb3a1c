[package]
name = "frostbow"
version = "0.1.0"
edition = "2021"
publish = false

[dependencies]
async-trait = "*"
aws-config = "*"
aws-credential-types = "*"
clap = { version = "*", features = ["derive"] }
futures = "*"
object_store = { version = "*", features = ["aws", "gcp"] }
tokio = { version = "*", features = ["macros", "rt-multi-thread"] }
tracing = "*"
tracing-subscriber = { version = "*", features = ["env-filter"] }
