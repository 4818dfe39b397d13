[package]
name = "motion_trails"
version = "0.1.0"
edition = "2021"
publish = false

[dependencies]
image = "*"
video-rs = "*"
indicatif = "*"
log = "*"
