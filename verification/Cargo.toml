[package]
name = "redlux"
version = "0.1.0"
edition = "2021"
publish = false

[dependencies]
fdk-aac = "*"
mp4 = "*"
rodio = "*"
