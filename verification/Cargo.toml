[package]
name = "rigidbody2d"
version = "0.1.0"
edition = "2021"
publish = false

[dependencies]
rapier2d = "0.11.1"
