[package]
name = "streamdeck-oxide"
version = "0.1.0"
edition = "2021"
publish = false

[dependencies]
ab_glyph = "*"
async-trait = "*"
elgato-streamdeck = { version = "*", features = ["async"] }
generic-array = "*"
image = "*"
imageproc = "*"
resvg = "*"
tokio = { version = "1", features = ["sync", "macros", "rt", "time"] }
