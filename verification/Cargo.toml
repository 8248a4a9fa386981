[package]
name = "transformer"
version = "0.1.0"
edition = "2021"
publish = false

[dependencies]
regex = "*"
hyper = "0.10"
iron = "0.6"
opencv = "*"
rexiv2 = "*"
