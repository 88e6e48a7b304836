[package]
name = "tc_value"
version = "0.1.0"
edition = "2021"
publish = false

[dependencies]
pathlink = "*"
number-general = "*"
destream = "*"
async-trait = "*"
