[package]
name = "oxc_front"
version = "0.1.0"
edition = "2021"
publish = false

[dependencies]
serde_json = "=1.0.154"
itertools = "=0.15.0"
mime_guess = "=2.0.5"
rustc-hash = "=2.1.3"
oxc_allocator = "0.80"
oxc_ast = "0.80"
oxc_span = "0.80"
oxc_diagnostics = "0.80"
