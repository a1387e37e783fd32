[package]
name = "rainbowgif"
version = "0.1.0"
edition = "2021"
publish = false

[dependencies]
clap = { version = "4", features = ["cargo"] }
gif = "0.13"
gif-dispose = "5"
image = "0.24"
imagequant = "4"
palette = "0.6"
