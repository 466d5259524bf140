[package]
name = "sui_proxy"
version = "0.1.0"
edition = "2021"
publish = false

[dependencies]
anyhow = "1"
async-trait = "0.1"
bytes = "1"
clap = { version = "4", default-features = false, features = ["std", "help", "usage", "derive"] }
fastcrypto = { version = "0.1", default-features = false }
futures = { version = "0.3", default-features = false, features = ["std"] }
http = "1"
object_store = { version = "0.12", default-features = false, features = ["fs", "aws", "azure", "gcp"] }
reqwest = { version = "0.12", default-features = false, features = ["rustls-tls"] }
serde = { version = "1", features = ["derive"] }
serde_json = "1"
serde_yaml = "0.9"
tokio = { version = "1", default-features = false, features = ["rt-multi-thread", "time"] }
tracing = "0.1"
url = "2"
