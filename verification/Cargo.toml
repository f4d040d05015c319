[package]
name = "grid_arena"
version = "0.1.0"
edition = "2021"
publish = false

[dependencies]
ncurses = "*"
rand = "0.7"
