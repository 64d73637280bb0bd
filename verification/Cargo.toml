[package]
name = "snake_game"
version = "0.1.0"
edition = "2021"
publish = false

[dependencies]
cgmath = { version = "=0.18.0", features = ["mint"] }
quad-rand = "=0.2.3"
good-web-game = "=0.4.2"
