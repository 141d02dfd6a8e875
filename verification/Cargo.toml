[package]
name = "firebae-cm"
version = "0.1.0"
edition = "2021"
publish = false

[dependencies]
gcp_auth = "*"
reqwest = { version = "0.12", features = ["json"] }
serde = { version = "1", features = ["derive"] }
serde_json = "1"
thiserror = "1"
time = { version = "0.3", features = ["formatting"] }
tokio = { version = "1", features = ["sync"] }
