[package]
name = "parsec_client"
version = "0.1.0"
edition = "2021"
publish = false

[dependencies]
parsec-interface = "=0.29.1"
mockstream = "=0.0.3"
num-traits = "=0.2.19"

[dev-dependencies]
zeroize = "=1.9.1"
libc = "=0.2.191"
