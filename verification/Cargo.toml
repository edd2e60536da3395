[package]
name = "gsr"
version = "0.1.0"
edition = "2021"
publish = false

[dependencies]
regex = "1"
structopt = "0.3"
threadpool = "1"
walkdir = "2"
