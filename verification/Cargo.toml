[package]
name = "camera_access"
version = "0.1.0"
edition = "2021"
publish = false

[dependencies]
diesel = { version = "=1.4.8", features = ["postgres", "uuidv07", "r2d2"] }
rocket = { version = "0.5", features = ["json"] }
serde = { version = "=1.0.229", features = ["derive"] }
uuid = { version = "=0.8.2", features = ["serde"] }
