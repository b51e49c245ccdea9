[package]
name = "partiql_bridge"
version = "0.1.0"
edition = "2021"
publish = false

[dependencies]
regex = "1"
aws-config = { version = "1", features = ["behavior-version-latest"] }
aws-sdk-dynamodb = "1"
diesel = { version = "2", default-features = false, features = ["postgres_backend"] }
tokio = { version = "1", features = ["macros", "rt-multi-thread"] }
