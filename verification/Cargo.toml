[package]
name = "diplopod"
version = "0.1.0"
edition = "2021"
publish = false

[dependencies]
rand = "*"
directories = "*"
anyhow = "*"
