[package]
name = "minecraft_operator_core"
version = "0.1.0"
edition = "2021"
publish = false

[dependencies]
anyhow = "*"
chrono = "*"
log = "*"
md-5 = "*"
pretty_env_logger = "*"
reqwest = { version = "*", default-features = false, features = ["rustls-tls"] }
serde = { version = "*", features = ["derive"] }
serde_json = "*"
sha1 = "*"
sha2 = "*"
tokio = { version = "*", features = ["macros", "rt-multi-thread", "time"] }
url = "*"
