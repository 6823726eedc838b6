[package]
name = "altgetset"
version = "0.1.0"
edition = "2021"
publish = false

[dependencies]
syn = "2"
proc-macro2 = "1"
quote = "1"
proc-macro-error2 = "2"
