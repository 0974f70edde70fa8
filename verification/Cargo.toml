[package]
name = "newrelic_unofficial"
version = "0.1.0"
edition = "2021"
publish = false

[dependencies]
attohttpc = { version = "*", features = ["json"] }
flate2 = "1"
get_if_addrs = "*"
hostname = "*"
http = "*"
log = "*"
parking_lot = "*"
serde = { version = "1", features = ["derive"] }
serde_json = "1"
sysinfo = "*"
thiserror = "*"
