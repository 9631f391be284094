[package]
name = "mtgsdk"
version = "0.2.0"
edition = "2021"
publish = false

[dependencies]
reqwest = { version = "=0.11.27", features = ["json"] }
serde = { version = "=1.0.229", features = ["derive"] }
tokio = { version = "=1.54.1", features = ["macros", "rt-multi-thread"] }

[dev-dependencies]
http = "=0.2.12"
