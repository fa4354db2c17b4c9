[package]
name = "map_bridge"
version = "0.1.0"
edition = "2021"
publish = false

[dependencies]
anyhow = "*"
clap = { version = "*", features = ["derive", "env"] }
clap_complete = "*"
clap-duration = "*"
duration-human = "*"
env_logger = "*"
log = "*"
paho-mqtt = { version = "*", default-features = false, features = ["bundled"] }
serde = { version = "*", features = ["derive"] }
serde_json = "*"
serialport = { version = "*", default-features = false }
