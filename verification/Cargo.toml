[package]
name = "swarm_registry"
version = "0.1.0"
edition = "2021"
publish = false

[dependencies]
sha1 = "*"
serde_json = "*"
serde = { version = "*", features = ["derive"] }
uuid = { version = "*", features = ["v4", "serde"] }
actix-web = "*"
