[package]
name = "ws63_starter"
version = "0.1.0"
edition = "2021"
publish = false

[dependencies]
hisi-rf-core = { version = "=0.1.0-alpha.26", features = ["incremental-backend-experiment"] }
smoltcp = { version = "=0.14.0", default-features = false, features = ["medium-ethernet", "proto-ipv4", "socket-dhcpv4"] }
hisi-rf = { version = "=0.1.0-alpha.116", features = ["chip-ws63", "profile-wifi-wpa2-smoltcp"] }
hisi-hal = { version = "=0.7.0-alpha.9", features = ["chip-ws63", "unstable"] }
hisi-rtos = "=0.1.0-alpha.25"
