[package]
name = "ttt_core"
version = "0.1.0"
edition = "2021"
publish = false

[dependencies]
open_ttt_lib = "*"
