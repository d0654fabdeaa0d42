[package]
name = "fourhills"
version = "0.1.0"
edition = "2021"
publish = false

[dependencies]
yew = "=0.23.0"
gloo-console = "0.3"
