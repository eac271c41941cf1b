[package]
name = "rsvg_core"
version = "0.1.0"
edition = "2021"
publish = false

[dependencies]
data-url = "=0.1.1"
cssparser = "=0.27.2"
clap = "=2.34.0"
libc = "=0.2.191"
