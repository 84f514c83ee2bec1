[package]
name = "nt"
version = "0.1.0"
edition = "2021"
publish = false

[dependencies]
mio = "0.6"
libc = "0.2"
log = "0.4"
env_logger = "0.10"
structopt = "0.3"
url = "2"
