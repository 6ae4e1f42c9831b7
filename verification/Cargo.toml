[package]
name = "ecampus_sync"
version = "0.1.0"
edition = "2021"
publish = false

[dependencies]
ical = "=0.11.0"
minicaldav = "=0.8.0"
ureq = "=2.12.1"
url = "=2.5.8"
clap = { version = "=4.6.7", features = ["derive"] }
