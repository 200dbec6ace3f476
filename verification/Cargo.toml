[package]
name = "solharvest"
version = "0.1.0"
edition = "2021"
publish = false

[dependencies]
serde = { version = "=1.0.229", features = ["derive"] }
serde_json = "=1.0.151"
reqwest = { version = "=0.13.5", default-features = false }
tokio = { version = "=1.53.2", features = ["macros", "rt-multi-thread", "process", "fs", "time"] }
git2 = { version = "=0.21.0", default-features = false }
headless_chrome = "=0.9.0"
