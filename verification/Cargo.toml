[package]
name = "terminal_banner"
version = "0.1.0"
edition = "2021"
publish = false

[dependencies]
textwrap = { version = "0.16", features = ["terminal_size"] }
colored = "2"
