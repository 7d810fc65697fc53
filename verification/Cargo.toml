[package]
name = "bao-vhost-frontend"
version = "0.1.0"
edition = "2021"
publish = false

[dependencies]
clap = { version = "*", features = ["derive"] }
lazy_static = "*"
libc = "*"
seccompiler = "*"
vhost = { version = "*", features = ["vhost-user-frontend"] }
virtio-bindings = "*"
virtio-queue = "*"
vm-memory = { version = "*", features = ["backend-mmap", "backend-atomic"] }
vmm-sys-util = "*"
