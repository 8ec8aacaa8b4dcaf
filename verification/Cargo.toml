[package]
name = "email_shared"
version = "0.1.0"
edition = "2021"
publish = false

[dependencies]
lambda_runtime = "0.3"
lazy_static = "1"
rusoto_core = { version = "0.46", default-features = false, features = ["rustls"] }
rusoto_dynamodb = { version = "0.46", default-features = false, features = ["rustls"] }
rusoto_sqs = { version = "0.46", default-features = false, features = ["rustls"] }
serde = { version = "1", features = ["derive"] }
serde_json = "1"
structopt = "0.3"
tokio = { version = "1", features = ["macros", "rt-multi-thread"] }
tracing = "0.1"
tracing-futures = "0.2"
tracing-subscriber = "0.2"
