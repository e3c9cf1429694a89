[package]
name = "par_map"
version = "0.1.0"
edition = "2021"

[dependencies]
threadpool = "1.8"
