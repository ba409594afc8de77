[package]
name = "nub"
version = "0.1.0"
edition = "2021"
publish = false

[dependencies]
lol_html = "3.0.0"
napi = "3"
napi-derive = "3"
