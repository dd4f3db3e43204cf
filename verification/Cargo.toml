[package]
name = "decimation_benchmark"
version = "0.1.0"
edition = "2021"
publish = false

[dependencies]
image = "=0.23.14"
pollster = "=0.2.5"
winit = "=0.26.1"
