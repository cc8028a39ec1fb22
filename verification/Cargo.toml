[package]
name = "mief"
version = "0.1.0"
edition = "2021"
publish = false

[dependencies]
rand = "0.4"
piston_window = "*"
find_folder = "*"
fps_counter = "*"
