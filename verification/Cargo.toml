[package]
name = "robot_hal"
version = "0.1.0"
edition = "2021"
publish = false

[dependencies]
rppal = "*"
log = "*"
env_logger = "*"
