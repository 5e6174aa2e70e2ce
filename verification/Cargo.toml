[package]
name = "mntn"
version = "0.1.0"
edition = "2021"
publish = false

[dependencies]
chrono = "0.4"
directories-next = "2"
dirs = "*"
dirs-next = "2"
glob = "0.3"
inquire = "*"
libc = "0.2"
plist = "1"
rayon = "1"
regex = "1"
serde = { version = "1", features = ["derive"] }
serde_json = "1"
shellexpand = "3"
signal-hook = "0.3"
tempfile = "3"
trash = "*"
which = "*"
