[package]
name = "annatomic"
version = "0.1.0"
edition = "2021"
publish = false

[dependencies]
anyhow = "*"
clap = { version = "*", features = ["derive"] }
egui = { version = "*", default-features = false }
env_logger = "*"
graphannis = "*"
graphannis-core = "*"
log = "*"
rayon = "*"
serde = { version = "*", features = ["derive"] }
uuid = { version = "*", features = ["v4"] }

[dev-dependencies]
tempfile = "*"
