[package]
name = "tuxedo_control"
version = "0.2.0"
edition = "2021"
publish = false

[dependencies]
crossterm = "0.28"
gtk4 = { version = "0.9", features = ["v4_10"] }
libadwaita = { version = "0.7", features = ["v1_2"] }
libc = "0.2"
serde = { version = "1", features = ["derive"] }
serde_json = "1"
