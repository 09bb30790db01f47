[package]
name = "tree-sitter-c-proc"
version = "0.1.0"
edition = "2021"
publish = false

[dependencies]
tree-sitter-c = "=0.20.8"
syn = "=2.0.119"
quote = "=1.0.47"
proc-macro2 = "=1.0.107"
