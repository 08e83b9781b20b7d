[package]
name = "quasar_engine"
version = "0.1.0"
edition = "2021"
publish = false

[dependencies]
vulkano = "0.29"
vulkano-win = "0.29"
winit = "0.26"
log = "0.4"
simple_logger = "2"
