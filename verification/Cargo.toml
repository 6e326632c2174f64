[package]
name = "website_monitor"
version = "0.1.0"
edition = "2021"
publish = false

[dependencies]
reqwest = { version = "*", default-features = false }
tokio = { version = "*", features = ["macros", "rt-multi-thread", "time"] }
serde = { version = "*", features = ["derive"] }
serde_json = "*"
config = { version = "*", default-features = false, features = ["toml"] }
simple_pretty = "*"
colored = "*"
