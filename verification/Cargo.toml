[package]
name = "issuemyst"
version = "0.1.0"
edition = "2021"
publish = false

[dependencies]
rand = "=0.7.3"
reqwest = { version = "=0.10.10", features = ["blocking", "json"] }
rocket = { version = "0.5", features = ["json"] }
rocket_dyn_templates = { version = "*", features = ["tera"] }
serde = { version = "=1.0.229", features = ["derive"] }
serde_json = "=1.0.154"
