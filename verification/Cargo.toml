[package]
name = "garden_wifi"
version = "0.1.0"
edition = "2021"
publish = false

[dependencies]
embedded-svc = { version = "=0.26.4", default-features = false }
esp-backtrace = "=0.10.0"
esp-println = "=0.10.0"
esp-wifi = "=0.2.0"
heapless = "=0.7.17"
nb = "=1.1.0"
smoltcp = { version = "=0.11.0", default-features = false, features = ["proto-ipv4", "socket-tcp", "medium-ethernet"] }
thiserror-no-std = "=2.0.2"
