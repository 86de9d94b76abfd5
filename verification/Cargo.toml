[package]
name = "chordthingy"
version = "0.1.0"
edition = "2021"
publish = false

[dependencies]
anyhow = "1"
evdev-rs = "*"
itertools = "*"
rdev = "*"
serde = "1"
serde_json = "1"

[dev-dependencies]
regex = "1"
