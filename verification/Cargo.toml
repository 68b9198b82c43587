[package]
name = "cotton"
version = "0.1.0"
edition = "2021"
publish = false

[dependencies]
bytemuck = "1"
rp2040-pac = "0.6"
cortex-m = "0.7"
rtic-common = "1"
futures = "0.3"
futures-util = "0.3"
async-stream = "0.3"
neli = { version = "0.6", features = ["async"] }
nix = "0.26"
