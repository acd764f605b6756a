[package]
name = "scan_dir"
version = "0.3.3"
edition = "2021"
publish = false

[dependencies]
quick-error = "1.2"
