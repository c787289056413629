[package]
name = "contest"
version = "0.1.0"
edition = "2021"
publish = false

[dependencies]
regex = "*"
glob = "*"
shellwords = "*"
json5 = "*"
serde = { version = "*", features = ["derive"] }
clap = { version = "*", features = ["derive"] }
ctrlc = "*"
nix = { version = "*", features = ["fs"] }
termcolor = "*"
terminal_size = "*"
