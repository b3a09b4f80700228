[package]
name = "rotating_triangle"
version = "0.1.0"
edition = "2021"
publish = false

[dependencies]
log = "0.4"
env_logger = "0.10"
dotenv = "0.15"
vulkano = "0.34"
vulkano-win = "0.34"
winit = "0.28"
