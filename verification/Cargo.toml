[package]
name = "hdr"
version = "0.1.0"
edition = "2021"
publish = false

[dependencies]
skyline = "0.6.0"
skyline-web = "0.2.0"
skyline_smash = "0.1.0"
