[package]
name = "arm7tdmi"
version = "0.1.0"
edition = "2021"
publish = false

[dependencies]
argparse = "*"
log = "*"
