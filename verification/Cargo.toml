[package]
name = "thesis_watcher"
version = "0.1.0"
edition = "2021"
publish = false

[dependencies]
colored = "2"
lazy_static = "1"
notify = "4"
regex = "1"
structopt = "0.3"
