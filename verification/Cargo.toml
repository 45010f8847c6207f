[package]
name = "cursive"
version = "0.1.0"
edition = "2021"
publish = false

[dependencies]
ncurses = "*"
toml = "*"
unicode-segmentation = "*"
unicode-width = "*"
