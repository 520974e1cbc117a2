[package]
name = "tiger_claw"
version = "0.1.0"
edition = "2021"
publish = false

[dependencies]
chrono = "=0.4.45"
serde = { version = "=1.0.229", features = ["derive"] }
serde_json = "=1.0.151"
toml = "=1.1.6"
reqwest = { version = "=0.13.5", default-features = false, features = ["json", "form"] }
clap = { version = "=4.6.7", features = ["derive"] }
tokio = { version = "=1.53.2", features = ["macros", "rt-multi-thread", "time"] }
aws-config = "=1.12.0"
aws-sdk-dynamodb = "=1.130.0"
