[package]
name = "scene2d"
version = "0.1.0"
edition = "2021"
publish = false

[dependencies]
ggez = "=0.5.1"
lyon = "=0.13.5"
rand = "=0.7.3"
