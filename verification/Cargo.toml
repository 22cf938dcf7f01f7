[package]
name = "idsm"
version = "0.1.0"
edition = "2021"
publish = false

[dependencies]
env_logger = "0.11"
getopts = "0.2"
libc = "0.2"
log = "0.4"
serde_json = "1"
