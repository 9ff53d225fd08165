[package]
name = "grid_daemon"
version = "0.1.0"
edition = "2021"
publish = false

[dependencies]
clap = "2.33"
ctrlc = "3.1"
log = "0.4"
simple_logger = "1.0"
