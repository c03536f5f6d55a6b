[package]
name = "eradicate_tui"
version = "0.1.0"
edition = "2021"
publish = false

[dependencies]
glob = "0.3"
tui = "0.19"
crossterm = "0.25"
unicode-width = "0.1"

[dev-dependencies]
tempfile = "3"
