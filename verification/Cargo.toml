[package]
name = "lint_core"
version = "0.1.0"
edition = "2021"
publish = false

[dependencies]
anyhow = "=1.0.104"
deno_core = "0.73"
serde = { version = "=1.0.229", features = ["derive"] }
serde_json = "=1.0.154"
swc_common = "=26.0.0"
swc_ecma_ast = { version = "=29.0.2", features = ["serde-impl"] }
swc_ecmascript = { version = "=74.0.0", features = ["parser", "visit"] }
