[package]
name = "infer_client"
version = "0.1.0"
edition = "2021"
publish = false

[dependencies]
tonic = "0.12"
prost = "0.13"
tokio = { version = "1", features = ["macros", "rt-multi-thread"] }
structopt = "0.3"
tracing = "0.1"
tracing-subscriber = "0.3"
