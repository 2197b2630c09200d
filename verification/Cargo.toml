[package]
name = "socktrace"
version = "0.1.0"
edition = "2021"
publish = false

[dependencies]
httparse = "=1.10.1"
libc = "=0.2.191"
nix = "=0.23.2"
redhook = "=2.0.0"
rustracing = "=0.6.0"
rustracing_jaeger = "=0.10.0"
