[package]
name = "asciidraw"
version = "0.1.0"
edition = "2021"
publish = false

[dependencies]
crossterm = "*"
strum = "*"
strum_macros = "*"
