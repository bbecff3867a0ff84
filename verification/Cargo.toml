[package]
name = "workshop_led"
version = "0.1.0"
edition = "2021"
publish = false

[dependencies]
trouble-host = "0.7"
embassy-sync = "*"
embassy-futures = "0.1"
embassy-time = { version = "*", features = ["std"] }
embassy-executor = "*"
embassy-net = { version = "*", features = ["tcp", "dhcpv4", "proto-ipv4"] }
embassy-rp = { version = "*", features = ["rp235xa"] }
cyw43 = "0.7"
cyw43-pio = "*"
picoserve = "0.17"
apds9960 = "*"
static_cell = "*"
defmt = "*"
embedded-hal = "1"
