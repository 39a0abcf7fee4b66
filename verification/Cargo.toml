[package]
name = "julia"
version = "0.1.0"
edition = "2021"
publish = false

[dependencies]
smallvec = "1"
clap = "2"
colored = "1"
liner = "0.4"
