[package]
name = "bobby"
version = "0.1.0"
edition = "2021"
publish = false

[dependencies]
rusqlite = { version = "=0.40.2", features = ["bundled"] }
gtk4 = { version = "=0.11.5", features = ["v4_10"] }
libadwaita = { version = "=0.9.2", features = ["v1_8"] }
gio = "=0.22.10"
