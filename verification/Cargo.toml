[package]
name = "respos"
version = "0.1.0"
edition = "2021"
publish = false

[dependencies]
smoltcp = { version = "=0.11.0", default-features = false, features = ["alloc", "medium-ip", "medium-ethernet", "proto-ipv4", "proto-ipv6", "socket-tcp", "socket-udp"] }
spin = "=0.9.9"
lazy_static = "=1.5.1"
virtio-drivers = "0.11"
