[package]
name = "iron_request"
version = "0.1.0"
edition = "2021"
publish = false

[dependencies]
hyper = "0.10"
url = "1"
typemap = "0.3"
plugin = "0.2"
modifier = "0.1"
