[package]
name = "vsock_device"
version = "0.1.0"
edition = "2021"
publish = false

[dependencies]
bincode = { version = "2", features = ["serde"] }
crossbeam-channel = "0.5"
libc = "0.2"
nix = { version = "0.30", features = ["socket", "net", "uio"] }
serde = { version = "1", features = ["derive"] }
vm-memory = { version = "*", features = ["backend-mmap", "backend-atomic"] }
windows-sys = { version = "*", features = ["Win32_System_Hypervisor", "Win32_Foundation"] }
