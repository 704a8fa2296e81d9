[package]
name = "fracture_pt"
version = "0.1.0"
edition = "2021"
publish = false

[dependencies]
chrono = "0.4"
uuid = "1"
form_urlencoded = "1"
serde = { version = "1", features = ["derive"] }
serde_json = "1"
