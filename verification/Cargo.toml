[package]
name = "irir"
version = "0.1.0"
edition = "2021"
publish = false

[dependencies]
image = "*"
actix-web = "*"
actix-files = "*"
clap = "*"
env_logger = "*"
log = "*"
