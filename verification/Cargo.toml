[package]
name = "pingbot"
version = "0.1.0"
edition = "2021"
publish = false

[dependencies]
dotenv = "0.15"
futures = "0.3"
tokio = { version = "1", features = ["macros", "rt-multi-thread"] }
tracing = "0.1"
tracing-subscriber = "0.2"
twilight-cache-inmemory = "0.3"
twilight-gateway = "0.3"
twilight-http = "0.3"
twilight-model = "0.3"
