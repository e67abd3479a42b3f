[package]
name = "docker_stats"
version = "0.1.0"
edition = "2021"
publish = false

[dependencies]
futures = "=0.3.34"
shiplift = { version = "=0.7.0", default-features = false, features = ["unix-socket"] }
tokio = { version = "=1.54.1", features = ["macros", "rt-multi-thread"] }
