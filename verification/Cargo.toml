[package]
name = "hydra_coop"
version = "0.1.0"
edition = "2021"
publish = false

[dependencies]
clap = { version = "=4.6.7", features = ["env"] }
ctrlc = "=3.5.2"
dirs = "=5.0.1"
evdev = "=0.12.2"
fern = "=0.6.2"
gtk4 = "=0.9.7"
log = "=0.4.35"
polling = "=3.11.0"
serde = { version = "=1.0.229", features = ["derive"] }
serde_json = "=1.0.154"
shellexpand = "=3.1.2"
thiserror = "=1.0.69"
toml = "=0.8.23"
x11rb = "=0.13.2"
