[package]
name = "dcpowerunit"
version = "0.1.0"
edition = "2021"
publish = false

[dependencies]
ap33772s-driver = "*"
embedded-hal = "*"
esp-idf-hal = "*"
esp-idf-sys = "*"
anyhow = "*"
log = "*"
