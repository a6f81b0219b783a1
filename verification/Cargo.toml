[package]
name = "script_var"
version = "0.1.0"
edition = "2021"
publish = false

[dependencies]
anyhow = "1"
codespan-reporting = "0.11"
log = "0.4"
