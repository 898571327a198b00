[package]
name = "ts_checker"
version = "0.1.0"
edition = "2021"
publish = false

[dependencies]
fxhash = "0.2"
backtrace = "0.3"
swc_atoms = "*"
swc_common = "*"
swc_ecma_ast = "*"
