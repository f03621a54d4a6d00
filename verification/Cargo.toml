[package]
name = "fervid"
version = "0.1.0"
edition = "2021"
publish = false

[dependencies]
smallvec = "1"
swc_core = { version = "*", features = ["common", "ecma_ast", "ecma_parser", "ecma_codegen"] }
swc_ecma_codegen = "*"
