[package]
name = "space_invaders"
version = "0.1.0"
edition = "2021"
publish = false

[dependencies]
quicksilver = { version = "=0.4.0", default-features = false }
