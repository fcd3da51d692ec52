[package]
name = "sensor_relay"
version = "0.1.0"
edition = "2021"
publish = false

[dependencies]
bluer = { version = "=0.17.4", features = ["bluetoothd"] }
btsensor = "=0.1.2"
chrono = "=0.4.45"
dbus = { version = "=0.9.12", features = ["vendored"] }
futures = "=0.3.34"
influxdb = { version = "=0.7.2", features = ["derive"] }
tokio = { version = "=1.54.1", features = ["rt", "macros", "sync"] }
