[package]
name = "blobber"
version = "0.1.0"
edition = "2021"
publish = false

[dependencies]
glam = "=0.34.1"
hecs = "0.10"
log = "=0.4.34"
simplelog = "=0.12.2"
