[package]
name = "garnish"
version = "0.1.0"
edition = "2021"
publish = false

[dependencies]
ratatui = { version = "0.29", default-features = false, features = ["unstable-widget-ref"] }
unicode-width = "0.2"
serde = { version = "1", features = ["derive"] }

[dev-dependencies]
serde_json = "1"
