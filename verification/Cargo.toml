[package]
name = "franka"
version = "0.1.0"
edition = "2021"
publish = false

[dependencies]
zerocopy = "0.8"
libc = "0.2"
nalgebra = "0.33"
