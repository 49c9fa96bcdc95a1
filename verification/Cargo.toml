[package]
name = "git_cmd"
version = "0.1.0"
edition = "2021"
publish = false
