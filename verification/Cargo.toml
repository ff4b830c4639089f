[package]
name = "blockcopy"
version = "0.1.0"
edition = "2021"
publish = false

[dependencies]
argh = "0.1"
async-std = "1"
