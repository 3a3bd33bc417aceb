[package]
name = "tree_bridge"
version = "0.1.0"
edition = "2021"
publish = false

[dependencies]
tree-sitter = "*"
emacs = "*"

[dev-dependencies]
tree-sitter-javascript = "*"
