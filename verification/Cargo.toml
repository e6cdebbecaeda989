[package]
name = "philharmonic-store"
version = "0.1.0"
edition = "2021"
publish = false

[dependencies]
philharmonic-types = "*"
async-trait = "*"
thiserror = "*"
