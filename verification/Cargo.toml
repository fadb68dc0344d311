[package]
name = "pos_creator"
version = "0.1.0"
edition = "2021"
publish = false

[dependencies]
dharitri-sc = "*"
