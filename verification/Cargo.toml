[package]
name = "unicode_fancy_glyph"
version = "0.1.0"
edition = "2021"
publish = false
