[package]
name = "libdecor"
version = "0.1.0"
edition = "2021"
publish = false

[dependencies]
dlib = "0.5"
lazy_static = "1"
libloading = "0.8"
scoped-tls = "1"
wayland-client = { version = "0.29", features = ["dlopen"] }
wayland-protocols = { version = "0.29", features = ["client"] }
