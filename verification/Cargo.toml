[package]
name = "const_fn"
version = "0.3.1"
edition = "2021"
publish = false

[dependencies]
proc-macro2 = "1"
