[package]
name = "gameboy"
version = "0.1.0"
edition = "2021"
publish = false

[dependencies]
argparse = "0.2"
sdl2 = "*"
