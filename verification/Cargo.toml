[package]
name = "demorunner"
version = "0.1.0"
edition = "2021"
publish = false

[dependencies]
bollard = "*"
chrono = "0.4"
futures-util = "*"
once_cell = "*"
rocket = { version = "0.5", features = ["json"] }
safe-path = "*"
scopeguard = "*"
serde = { version = "*", features = ["derive"] }
serde_json = "*"
tempfile = "*"
tracing = "*"
tracing-subscriber = { version = "*", features = ["env-filter"] }
walkdir = "*"
zip = { version = "*", default-features = false }
