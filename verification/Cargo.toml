[package]
name = "wanikanji"
version = "0.1.0"
edition = "2021"
publish = false

[dependencies]
again = "*"
anyhow = "*"
clap = { version = "*", features = ["derive"] }
config = { version = "*", default-features = false, features = ["toml"] }
reqwest = { version = "*", default-features = false, features = ["json"] }
serde = { version = "*", features = ["derive"] }
serde_json = "*"
thiserror = "*"
tokio = { version = "*", features = ["macros", "rt-multi-thread", "fs", "time"] }
tracing = "*"
tracing-subscriber = "*"
