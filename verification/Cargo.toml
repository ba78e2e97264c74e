[package]
name = "starry_api"
version = "0.1.0"
edition = "2021"
publish = false

[dependencies]
axerrno = "*"
axfs = "=0.3.0-preview.3"
axfs-ng-vfs = "*"
axhal = "=0.3.0-preview.3"
axlog = "=0.3.0-preview.3"
axplat-riscv64-visionfive2 = "*"
axruntime = "=0.3.0-preview.3"
axtask = "=0.3.0-preview.3"
linux-raw-sys = "*"
starry-process = "*"
starry-vm = "*"
syscalls = "*"
