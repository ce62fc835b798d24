[package]
name = "retro_wav"
version = "0.1.0"
edition = "2021"
publish = false

[dependencies]
hound = "3.5"
crossterm = "0.27"
rand = "0.8"
rfd = { version = "0.14", default-features = false, features = ["xdg-portal", "tokio"] }
