[package]
name = "robot_car"
version = "0.1.0"
edition = "2021"
publish = false

[dependencies]
cyw43 = { version = "=0.7.0", features = ["defmt"] }
defmt = "=1.2.0"
defmt-rtt = "=1.3.1"
embassy-net = { version = "=0.9.1", features = ["defmt", "tcp", "dhcpv4", "medium-ethernet"] }
embassy-time = { version = "=0.5.1", features = ["defmt"] }
embedded-io-async = "=0.6.1"
panic-probe = { version = "=1.0.0", features = ["print-defmt"] }
static_cell = "=2.1.1"
