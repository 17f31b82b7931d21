[package]
name = "toy_game"
version = "0.1.0"
edition = "2021"
publish = false

[dependencies]
rand = "0.8"
rand_pcg = "0.3"
rand_seeder = "0.2"
once_cell = "1"
