[package]
name = "openzwave_adapter"
version = "0.1.0"
edition = "2021"
publish = false

[dependencies]
openzwave = "*"
transformable_channels = "=0.1.1"
log = "0.4"
