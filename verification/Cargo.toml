[package]
name = "fennec"
version = "0.1.0"
edition = "2021"
publish = false

[dependencies]
ash = "0.29"
colored = "1"
glutin = "0.21"
image = "0.22"
lazy_static = "1"
rlua = "0.17"
spirv-reflect = "0.2"
version = "3"
winapi = { version = "0.3", features = ["libloaderapi"] }
