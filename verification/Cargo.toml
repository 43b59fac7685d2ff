[package]
name = "cr2_to_jpg"
version = "0.1.0"
edition = "2021"
publish = false

[dependencies]
clap = "2"
glob = "0.3"
image = { version = "0.23", default-features = false, features = ["jpeg"] }
imagepipe = "*"
magick_rust = "*"
rawloader = "*"
rayon = "1"
