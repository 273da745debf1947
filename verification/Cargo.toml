[package]
name = "pi_photo_frame"
version = "0.1.0"
edition = "2021"
publish = false

[dependencies]
kamadak-exif = "0.5"
rand = "0.8"
reqwest = { version = "0.11", features = ["blocking", "json"] }
rumqttc = { version = "0.24", default-features = false }
run_script = "0.10"
serde = { version = "1", features = ["derive"] }
serde_json = "1"
tokio = { version = "1", features = ["rt-multi-thread", "time"] }
tracing = "0.1"
tracing-subscriber = "0.3"
once_cell = "1"
gtk4 = "0.6"
