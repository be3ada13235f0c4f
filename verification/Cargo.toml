[package]
name = "gray_scott_reaction_diffusion"
version = "0.1.0"
edition = "2021"
publish = false

[dependencies]
bytemuck = { version = "1", features = ["derive"] }
circular-queue = "0.2"
dotenv = "0.15"
env_logger = "0.10"
fontdue = "0.7"
futures = "0.3"
itertools = "0.12"
log = "0.4"
rand = "0.8"
