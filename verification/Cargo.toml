[package]
name = "ui_kit"
version = "0.1.0"
edition = "2021"
publish = false

[dependencies]
proc-macro-crate = "=3.5.0"
proc-macro2 = "=1.0.107"
quote = "=1.0.47"
syn = "=2.0.119"
smol = "=2.0.2"
instant = "=0.1.13"
unicode-ident = "=1.0.27"
