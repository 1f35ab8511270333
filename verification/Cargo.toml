[package]
name = "shana_portal"
version = "0.1.0"
edition = "2021"
publish = false

[dependencies]
zbus = { version = "=5.19.0", features = ["tokio"] }
tokio = { version = "=1.53.2", features = ["macros", "rt-multi-thread", "sync"] }
futures = "=0.3.34"
notify = "=8.2.0"
serde = { version = "=1.0.229", features = ["derive"] }
serde_repr = "=0.1.21"
url = "=2.5.8"
zvariant = { version = "=5.15.0", features = ["url"] }
