[package]
name = "fcu_core"
version = "0.1.0"
edition = "2021"
publish = false

[dependencies]
chrono = "=0.4.45"
serde = { version = "=1.0.229", features = ["derive"] }
serde_json = "=1.0.151"
linux-embedded-hal = "=0.3.2"
mpu9250 = { version = "=0.25.0", features = ["i2c"] }
pca9685 = "=0.1.0"
