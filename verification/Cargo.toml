[package]
name = "cairo_run_report"
version = "0.1.0"
edition = "2021"
publish = false

[dependencies]
anyhow = "1"
cairo-felt = "0.9"
cairo-lang-compiler = "=2.6.3"
cairo-lang-defs = "=2.6.3"
cairo-lang-diagnostics = "=2.6.3"
cairo-lang-filesystem = "=2.6.3"
cairo-lang-semantic = "=2.6.3"
cairo-lang-sierra = "=2.6.3"
cairo-lang-sierra-generator = "=2.6.3"
cairo-lang-starknet = "=2.6.3"
cairo-lang-utils = "=2.6.3"
