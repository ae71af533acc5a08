[package]
name = "jruby_launcher"
version = "0.1.0"
edition = "2021"
publish = false

[dependencies]
regex = "=1.13.1"
log = { version = "=0.4.34", features = ["std"] }
libc = "=0.2.191"
nix = { version = "=0.31.3", features = ["process"] }
process_path = "=0.1.4"
