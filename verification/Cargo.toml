[package]
name = "power_telemetry"
version = "0.1.0"
edition = "2021"
publish = false

[dependencies]
ads1x1x = "0.2"
chrono = "0.4"
embedded-hal = { version = "0.2", features = ["unproven"] }
linux-embedded-hal = "0.3"
nb = "0.1"
reqwest = { version = "0.12", default-features = false, features = ["blocking", "json"] }
serde = { version = "1", features = ["derive"] }
