[package]
name = "stroke_risk"
version = "0.1.0"
edition = "2021"
publish = false

[dependencies]
csv = "1"
serde = { version = "1", features = ["derive"] }
smartcore = "0.3"
