[package]
name = "clip_relay"
version = "0.1.0"
edition = "2021"
publish = false

[dependencies]
regex = "1"
uuid = { version = "1", features = ["v4"] }
frankenstein = { version = "0.30", default-features = false, features = ["async-http-client"] }
tokio = { version = "1", features = ["macros", "rt-multi-thread", "time"] }
reqwest = { version = "0.11", default-features = false, features = ["rustls-tls"] }
log = "0.4"
env_logger = "0.11"
