[package]
name = "mini_universe"
version = "0.1.0"
edition = "2021"
publish = false

[dependencies]
rand = "0.8"
rand_pcg = "0.3"
vek = "0.15"
sdl2 = { version = "0.35", features = ["image"] }
process_path = "0.1"
