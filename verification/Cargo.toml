[package]
name = "order_struct"
version = "0.1.0"
edition = "2021"
publish = false

[dependencies]
float-ord = "0.3"
