[package]
name = "codepointtrie"
version = "0.1.0"
edition = "2021"
publish = false

[dependencies]
unicode-bidi = "0.3"
regex-automata = "0.1"
