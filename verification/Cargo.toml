[package]
name = "wunder"
version = "0.1.0"
edition = "2021"
publish = false

[dependencies]
chrono = "=0.4.45"
clap = { version = "=4.6.7", features = ["derive"] }
config = { version = "=0.15.27", default-features = false, features = ["toml"] }
quick-xml = { version = "=0.42.0", features = ["serialize"] }
reqwest = { version = "=0.13.5", default-features = false, features = ["json", "multipart", "query", "stream"] }
serde = { version = "=1.0.229", features = ["derive"] }
serde_json = "=1.0.151"
serde_with_macros = "=3.24.0"
tokio = { version = "=1.53.2", features = ["macros", "rt-multi-thread", "fs"] }
tokio-util = { version = "=0.7.19", features = ["codec"] }
