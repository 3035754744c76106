[package]
name = "untracker"
version = "0.1.0"
edition = "2021"

[dependencies]
hound = "3.5"
ogg = "0.9"
opus = "0.3"
openmpt-sys = "*"
clap = { version = "4", features = ["derive"] }
anyhow = "1"
log = "0.4"
indicatif = "0.17"
