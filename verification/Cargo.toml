[package]
name = "vmm"
version = "0.1.0"
edition = "2021"
publish = false

[dependencies]
kvm-bindings = "*"
nix = { version = "0.27", features = ["fs", "ioctl", "mman"] }
