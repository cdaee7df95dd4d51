[package]
name = "xef"
version = "0.1.0"
edition = "2021"
publish = false

[dependencies]
clap = "=4.6.7"
colored = "=2.2.0"
