[package]
name = "lut_extractor"
version = "0.1.0"
edition = "2021"
publish = false

[dependencies]
clap = "3"
exr = "1"
colorbox = "*"
