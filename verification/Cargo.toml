[package]
name = "telnet"
version = "0.2.1"
edition = "2021"
publish = false

[dependencies]
flate2 = "1"
replace_with = "0.1"
