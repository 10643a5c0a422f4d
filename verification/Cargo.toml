[package]
name = "thermostat_control"
version = "0.1.0"
edition = "2021"
publish = false

[dependencies]
chrono = "0.4"
clap = { version = "4", features = ["derive"] }
home = "0.5"
log = "0.4"
serde = { version = "1", features = ["derive"] }
serde_yaml = "0.9"
simplelog = "0.12"
time = "0.3"
ureq = { version = "2", default-features = false, features = ["json"] }
