[package]
name = "drive_gauges"
version = "0.1.0"
edition = "2021"
publish = false

[dependencies]
anyhow = "=1.0.104"
influxdb = "=0.1.0"
kankyo = "=0.3.0"
serde = { version = "=1.0.229", features = ["derive"] }
termion = "=1.5.6"
tokio = { version = "0.2", features = ["macros", "rt-threaded"] }
tui = "=0.8.0"
