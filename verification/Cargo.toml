[package]
name = "matrix_display"
version = "1.0.0"
edition = "2021"
publish = false

[dependencies]
ansi_term = "0.12"
unicode-width = "0.1"
unicode_types = "*"
