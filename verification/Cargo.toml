[package]
name = "rover_control"
version = "0.1.0"
edition = "2021"
publish = false

[dependencies]
serde_json = "1"
serde = { version = "1", features = ["derive"] }
tokio = { version = "1", features = ["rt", "macros", "signal"] }
hyper = { version = "0.14", features = ["server", "http1", "tcp"] }
tokio-tungstenite = "0.20"
tungstenite = "0.20"
futures = "0.3"
futures-util = "0.3"
log = "0.4"
pretty_env_logger = "0.5"
pwm-pca9685 = "0.3"
linux-embedded-hal = "0.3"
