[package]
name = "easy_proxy"
version = "0.1.0"
edition = "2021"
publish = false

[dependencies]
async-trait = "0.1"
bytes = "1"
futures-util = "0.3"
http = "0.2"
hyper = { version = "0.14", features = ["client", "http1", "runtime", "tcp"] }
libc = "0.2"
log = "0.4"
nix = "0.20"
os_pipe = "0.9"
simple_logger = "1"
structopt = "0.3"
tokio = { version = "1", features = ["io-util", "macros", "net", "rt-multi-thread"] }
tokio-rustls = "0.22"
