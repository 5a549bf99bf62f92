[package]
name = "import_converter"
version = "0.1.0"
edition = "2021"
publish = false

[dependencies]
chrono = "0.4"
kamadak-exif = "*"
mp4 = "*"
config = "*"
glob = "*"
