[package]
name = "foxguard"
version = "0.3.2"
edition = "2021"
publish = false

[dependencies]
tree-sitter = "*"
tree-sitter-go = "*"
tree-sitter-python = "*"
tree-sitter-php = "*"
tree-sitter-rust = "*"
tree-sitter-swift = "*"
tree-sitter-javascript = "*"
regex = "*"
serde = { version = "*", features = ["derive"] }
serde_yaml = "*"
globset = "*"
walkdir = "*"
ignore = "*"
rayon = "*"
