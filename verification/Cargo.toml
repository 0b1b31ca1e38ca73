[package]
name = "quaternion"
version = "0.1.0"
edition = "2021"

[dependencies]
softfp = "=0.1.0"
