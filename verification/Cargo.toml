[package]
name = "daipendency"
version = "0.1.0"
edition = "2021"
publish = false

[dependencies]
anyhow = "=1.0.104"
bpaf = "=0.9.28"
daipendency-extractor = "=1.0.8"
daipendency-extractor-rust = "=0.5.0"
thiserror = "=2.0.21"
tree-sitter = "=0.24.7"

[dev-dependencies]
daipendency-testing = "=1.2.0"
tempfile = "=3.27.0"
